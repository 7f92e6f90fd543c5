//! The hexadecimal keypad: sixteen keys, 0x0 to 0xF, and the latch of the
//! key-wait instruction.

use vstd::prelude::*;

verus! {

/// The number of keys on the keypad.
pub const KEY_COUNT: usize = 16;

pub struct KeyBoard {
    /// Whether each key is down, indexed by key number.
    pub keys: Vec<bool>,
    /// Set while a key-wait instruction waits for a key.
    pub keypress_awaited: bool,
    /// The register that receives the awaited key.
    pub key_register: usize,
}

impl KeyBoard {
    pub open spec fn wf(&self) -> bool {
        &&& self.keys@.len() == KEY_COUNT
        &&& self.key_register < KEY_COUNT
    }

    /// A keypad with every key up and no key awaited.
    pub fn new() -> (k: KeyBoard)
        ensures
            k.wf(),
            forall|i: int| 0 <= i < KEY_COUNT ==> !k.keys@[i],
            !k.keypress_awaited,
            k.key_register == 0,
    {
        KeyBoard { keys: vec![false; KEY_COUNT], keypress_awaited: false, key_register: 0 }
    }

    /// Marks key `index` as down.
    pub fn key_down(&mut self, index: u8)
        requires
            old(self).wf(),
            index < KEY_COUNT,
        ensures
            final(self).wf(),
            final(self).keys@ == old(self).keys@.update(index as int, true),
            final(self).keypress_awaited == old(self).keypress_awaited,
            final(self).key_register == old(self).key_register,
    {
        self.keys.set(index as usize, true);
    }

    /// Marks key `index` as up.
    pub fn key_up(&mut self, index: u8)
        requires
            old(self).wf(),
            index < KEY_COUNT,
        ensures
            final(self).wf(),
            final(self).keys@ == old(self).keys@.update(index as int, false),
            final(self).keypress_awaited == old(self).keypress_awaited,
            final(self).key_register == old(self).key_register,
    {
        self.keys.set(index as usize, false);
    }

    /// Whether key `index` is down.
    pub fn is_key_down(&self, index: u8) -> (down: bool)
        requires
            self.wf(),
            index < KEY_COUNT,
        ensures
            down == self.keys@[index as int],
    {
        self.keys[index as usize]
    }
}

} // verus!
