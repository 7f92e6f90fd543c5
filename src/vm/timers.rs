//! CHIP-8 has two 8-bit countdown timers: the delay timer (`dt`) and the
//! sound timer (`st`). Each one is decremented once per processed frame while
//! it is nonzero; a tone sounds while the sound timer is nonzero.

use vstd::prelude::*;

verus! {

pub struct Timers {
    /// The delay timer, read and written by programs.
    pub dt: u8,
    /// The sound timer; a tone sounds while it is nonzero.
    pub st: u8,
}

/// One tick of a countdown timer: down by one, never below zero.
pub open spec fn tick(t: u8) -> u8 {
    if t > 0 { (t - 1) as u8 } else { 0 }
}

impl Timers {
    /// Both timers start at zero.
    pub fn new() -> (t: Timers)
        ensures
            t.dt == 0,
            t.st == 0,
    {
        Timers { dt: 0, st: 0 }
    }
}

} // verus!
