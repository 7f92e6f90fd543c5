//! The host keys that stand for the sixteen keypad keys: a 4 x 4 block of
//! the host keyboard.
//!
//! ```text
//!   keypad        host
//!   1 2 3 C       1 2 3 4
//!   4 5 6 D       q w e r
//!   7 8 9 E       a s d f
//!   A 0 B F       z x c v
//! ```

use vstd::prelude::*;
use crate::vm::keyboard::KEY_COUNT;

verus! {

/// The keypad key that host key `c` stands for, if any.
pub open spec fn keypad_key(c: char) -> Option<u8> {
    match c {
        '1' => Some(0x1u8),
        '2' => Some(0x2u8),
        '3' => Some(0x3u8),
        '4' => Some(0xCu8),
        'q' => Some(0x4u8),
        'w' => Some(0x5u8),
        'e' => Some(0x6u8),
        'r' => Some(0xDu8),
        'a' => Some(0x7u8),
        's' => Some(0x8u8),
        'd' => Some(0x9u8),
        'f' => Some(0xEu8),
        'z' => Some(0xAu8),
        'x' => Some(0x0u8),
        'c' => Some(0xBu8),
        'v' => Some(0xFu8),
        _ => None,
    }
}

/// The keypad key that host key `c` stands for, if any.
pub fn keypad_index(c: char) -> (k: Option<u8>)
    ensures
        k == keypad_key(c),
        k is Some ==> k->0 < KEY_COUNT,
{
    match c {
        '1' => Some(0x1),
        '2' => Some(0x2),
        '3' => Some(0x3),
        '4' => Some(0xC),
        'q' => Some(0x4),
        'w' => Some(0x5),
        'e' => Some(0x6),
        'r' => Some(0xD),
        'a' => Some(0x7),
        's' => Some(0x8),
        'd' => Some(0x9),
        'f' => Some(0xE),
        'z' => Some(0xA),
        'x' => Some(0x0),
        'c' => Some(0xB),
        'v' => Some(0xF),
        _ => None,
    }
}

/// The state of the sixteen keypad keys while the host keys `pressed` are
/// down: a keypad key is down when some pressed host key stands for it.
pub fn keypad_state(pressed: &Vec<char>) -> (keys: Vec<bool>)
    ensures
        keys@.len() == KEY_COUNT,
        forall|k: int|
            0 <= k < KEY_COUNT ==> (keys@[k] <==> exists|j: int|
                0 <= j < pressed@.len() && #[trigger] keypad_key(pressed@[j]) == Some(k as u8)),
{
    let mut keys = vec![false; KEY_COUNT];
    let mut j: usize = 0;
    while j < pressed.len()
        invariant
            j <= pressed@.len(),
            keys@.len() == KEY_COUNT,
            forall|k: int|
                0 <= k < KEY_COUNT ==> (keys@[k] <==> exists|i: int|
                    0 <= i < j && #[trigger] keypad_key(pressed@[i]) == Some(k as u8)),
        decreases pressed@.len() - j,
    {
        let key = keypad_index(pressed[j]);
        if let Some(k) = key {
            keys.set(k as usize, true);
        }
        proof {
            assert forall|k: int| 0 <= k < KEY_COUNT implies (keys@[k] <==> exists|i: int|
                0 <= i < j + 1 && #[trigger] keypad_key(pressed@[i]) == Some(k as u8)) by {
                if keys@[k] && !(exists|i: int|
                    0 <= i < j && #[trigger] keypad_key(pressed@[i]) == Some(k as u8)) {
                    assert(keypad_key(pressed@[j as int]) == Some(k as u8));
                }
            }
        }
        j = j + 1;
    }
    keys
}

} // verus!
