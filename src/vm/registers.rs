//! CHIP-8 has 16 general-purpose 8-bit registers, V0 to VF. VF doubles as
//! the flag register of the arithmetic, shift and draw instructions.

use vstd::prelude::*;

verus! {

/// The number of general-purpose registers.
pub const REGISTER_COUNT: usize = 16;

/// The index of the flag register VF.
pub const FLAG: usize = 15;

pub struct Registers {
    pub v: Vec<u8>,
}

impl Registers {
    pub open spec fn wf(&self) -> bool {
        self.v@.len() == REGISTER_COUNT
    }

    /// Sixteen registers, all zero.
    pub fn new() -> (r: Registers)
        ensures
            r.wf(),
            forall|k: int| 0 <= k < REGISTER_COUNT ==> r.v@[k] == 0,
    {
        Registers { v: vec![0u8; REGISTER_COUNT] }
    }
}

} // verus!
