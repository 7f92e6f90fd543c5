//! Plain data handed between the host and the machine: the program buffer
//! and the keypad layout.

pub mod keypad;
pub mod rom_reader;
