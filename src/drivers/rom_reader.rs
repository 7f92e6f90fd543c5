//! The buffer a program is read into before it is loaded into memory.

use vstd::prelude::*;

verus! {

/// The size of the buffer: the room for a program in memory.
pub const ROM_CAPACITY: usize = 3584;

pub struct RomReader {
    /// The program's bytes; only the first `size` are meaningful.
    pub rom: [u8; 3584],
    /// How many bytes of `rom` hold the program.
    pub size: usize,
}

impl RomReader {
    /// An empty buffer of zeros.
    pub fn new() -> (r: RomReader)
        ensures
            r.size == 0,
            forall|k: int| 0 <= k < ROM_CAPACITY ==> r.rom@[k] == 0,
    {
        RomReader { size: 0, rom: [0u8; 3584] }
    }

    /// Stores the bytes of a program read by the host: as many as fit into
    /// the buffer, from its start. The rest of the buffer is left as it was.
    pub fn store(&mut self, bytes: &[u8])
        ensures
            final(self).size == if bytes@.len() < ROM_CAPACITY {
                bytes@.len()
            } else {
                ROM_CAPACITY as nat
            },
            forall|k: int|
                0 <= k < ROM_CAPACITY ==> final(self).rom@[k] == if k < final(self).size {
                    bytes@[k]
                } else {
                    old(self).rom@[k]
                },
    {
        let n: usize = if bytes.len() < ROM_CAPACITY { bytes.len() } else { ROM_CAPACITY };
        let mut i: usize = 0;
        while i < n
            invariant
                i <= n <= ROM_CAPACITY,
                n <= bytes@.len(),
                forall|k: int|
                    0 <= k < ROM_CAPACITY ==> self.rom@[k] == if k < i {
                        bytes@[k]
                    } else {
                        old(self).rom@[k]
                    },
            decreases n - i,
        {
            self.rom[i] = bytes[i];
            i = i + 1;
        }
        self.size = n;
    }

    /// The program's bytes.
    pub fn program(&self) -> (p: &[u8])
        requires
            self.size <= ROM_CAPACITY,
        ensures
            p@ == self.rom@.subrange(0, self.size as int),
    {
        self.rom.as_slice().split_at(self.size).0
    }
}

} // verus!
