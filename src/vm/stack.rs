//! The call stack: return addresses pushed by a subroutine call and popped by
//! a return, at most sixteen deep.

use vstd::prelude::*;

verus! {

/// The number of return addresses the stack can hold.
pub const STACK_CAPACITY: usize = 16;

pub struct Stack {
    /// The return addresses, the most recent last.
    pub cells: Vec<u16>,
}

impl Stack {
    pub open spec fn wf(&self) -> bool {
        self.cells@.len() <= STACK_CAPACITY
    }

    /// An empty stack.
    pub fn new() -> (s: Stack)
        ensures
            s.wf(),
            s.cells@ == Seq::<u16>::empty(),
    {
        Stack { cells: Vec::new() }
    }
}

} // verus!
