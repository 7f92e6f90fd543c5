//! CHIP-8 memory: 4096 bytes, addressed 0x000 to 0xFFF. The built-in font
//! occupies the first 80 bytes; programs are loaded from 0x200 on.

use vstd::prelude::*;
use crate::vm::graphics::{font_set, FontSet, FONT_SIZE};

verus! {

/// The number of bytes of memory.
pub const MEMORY_SIZE: usize = 4096;

/// The address at which programs are loaded and execution starts.
pub const PROGRAM_START: usize = 0x200;

/// The room for a program: from `PROGRAM_START` to the end of memory.
pub const PROGRAM_CAPACITY: usize = 3584;

/// How many bytes of `data` fit in the program area.
pub open spec fn program_len(data: Seq<u8>) -> int {
    if data.len() < PROGRAM_CAPACITY { data.len() as int } else { PROGRAM_CAPACITY as int }
}

/// `cells` with the first `program_len(data)` bytes of `data` written from
/// `PROGRAM_START` on.
pub open spec fn with_program(cells: Seq<u8>, data: Seq<u8>) -> Seq<u8> {
    Seq::new(
        cells.len(),
        |k: int|
            if PROGRAM_START <= k < PROGRAM_START + program_len(data) {
                data[k - PROGRAM_START]
            } else {
                cells[k]
            },
    )
}

/// Memory right after construction: the font, then zeros.
pub open spec fn initial_memory() -> Seq<u8> {
    font_set() + Seq::new((MEMORY_SIZE - FONT_SIZE) as nat, |k: int| 0u8)
}

pub struct Memory {
    /// The bytes of memory, indexed by address.
    pub cells: Vec<u8>,
}

impl Memory {
    pub open spec fn wf(&self) -> bool {
        self.cells@.len() == MEMORY_SIZE
    }

    /// A memory holding the font at addresses 0 to 79 and zero elsewhere.
    pub fn new() -> (m: Memory)
        ensures
            m.wf(),
            m.cells@ == initial_memory(),
    {
        let mut memory = Memory { cells: vec![0u8; MEMORY_SIZE] };
        memory.set_fonts();
        assert(memory.cells@ =~= initial_memory());
        memory
    }

    /// Writes the font into the first 80 cells.
    fn set_fonts(&mut self)
        requires
            old(self).wf(),
        ensures
            final(self).wf(),
            final(self).cells@ == font_set() + old(self).cells@.subrange(
                FONT_SIZE as int,
                MEMORY_SIZE as int,
            ),
    {
        let font = FontSet::new();
        let mut i: usize = 0;
        while i < FONT_SIZE
            invariant
                i <= FONT_SIZE,
                font.fonts@ == font_set(),
                self.wf(),
                forall|k: int| 0 <= k < i ==> self.cells@[k] == font_set()[k],
                forall|k: int| i <= k < MEMORY_SIZE ==> self.cells@[k] == old(self).cells@[k],
            decreases FONT_SIZE - i,
        {
            self.cells.set(i, font.fonts[i]);
            i = i + 1;
        }
        assert(self.cells@ =~= font_set() + old(self).cells@.subrange(
            FONT_SIZE as int,
            MEMORY_SIZE as int,
        ));
    }

    /// Copies a program into memory from `PROGRAM_START` on. Bytes beyond the
    /// end of memory are left out.
    pub fn load_data(&mut self, data: &[u8])
        requires
            old(self).wf(),
        ensures
            final(self).wf(),
            final(self).cells@ == with_program(old(self).cells@, data@),
    {
        let n: usize = if data.len() < PROGRAM_CAPACITY { data.len() } else { PROGRAM_CAPACITY };
        let mut i: usize = 0;
        while i < n
            invariant
                i <= n,
                n == program_len(data@),
                self.wf(),
                forall|k: int|
                    0 <= k < MEMORY_SIZE ==> self.cells@[k] == if PROGRAM_START <= k < PROGRAM_START
                        + i {
                        data@[k - PROGRAM_START]
                    } else {
                        old(self).cells@[k]
                    },
            decreases n - i,
        {
            self.cells.set(PROGRAM_START + i, data[i]);
            i = i + 1;
        }
        assert(self.cells@ =~= with_program(old(self).cells@, data@));
    }
}

} // verus!
