//! A CHIP-8 virtual machine: the machine state (memory, registers, stack,
//! timers, keypad and framebuffer), the operator decoder, the instruction
//! handlers and the per-frame driver, each with a verified contract.

pub mod drivers;
pub mod vm;
