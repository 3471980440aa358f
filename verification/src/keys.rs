//! Key codes: raw key states, a snapshot of the keyboard, edge detection on
//! a polled key, the two bindings with their capture, and the label shown
//! for a key.

use vstd::prelude::*;

verus! {

/// The first key code that a capture looks at.
pub const FIRST_CAPTURED_KEY: i32 = 8;

/// The end of the key codes that a capture looks at; this one is not looked at.
pub const END_CAPTURED_KEY: i32 = 255;

/// Whether a raw key state, as the key-state query reports it, says that the
/// key is down now: the most significant of its sixteen bits is set.
pub open spec fn state_is_down(raw: i16) -> bool {
    raw < 0
}

/// Decodes a raw key state into "the key is down".
pub fn key_is_down(raw: i16) -> (down: bool)
    ensures
        down == state_is_down(raw),
{
    raw < 0
}

/// Which keys were down when the keyboard was polled, by key code.
#[derive(Clone, Copy, Debug)]
pub struct KeySnapshot {
    pub down: [bool; 256],
}

impl KeySnapshot {
    /// Whether the key with this code was down. A code that the snapshot does
    /// not hold counts as up.
    pub open spec fn down_at(&self, code: int) -> bool {
        0 <= code < 256 && self.down@[code]
    }

    /// Whether `code` is the first key, in the order of the codes that a
    /// capture looks at, that was down.
    pub open spec fn is_first_down(&self, code: int) -> bool {
        &&& FIRST_CAPTURED_KEY <= code < END_CAPTURED_KEY
        &&& self.down_at(code)
        &&& forall|k: int| FIRST_CAPTURED_KEY <= k < code ==> !self.down_at(k)
    }

    /// None of the keys that a capture looks at was down.
    pub open spec fn none_down(&self) -> bool {
        forall|k: int| FIRST_CAPTURED_KEY <= k < END_CAPTURED_KEY ==> !self.down_at(k)
    }

    /// The first key that a capture would take, if any key was down.
    pub open spec fn first_down(&self) -> Option<i32> {
        if self.none_down() {
            None
        } else {
            Some(choose|code: i32| self.is_first_down(code as int))
        }
    }

    /// A snapshot with every key up.
    pub fn all_up() -> (keys: KeySnapshot)
        ensures
            forall|code: int| !keys.down_at(code),
    {
        KeySnapshot { down: [false; 256] }
    }

    /// Records the state of one key. A code that the snapshot does not hold
    /// is ignored.
    pub fn set_down(&mut self, code: i32, down: bool)
        ensures
            forall|k: int|
                final(self).down_at(k) == if k == code && 0 <= k < 256 {
                    down
                } else {
                    old(self).down_at(k)
                },
    {
        if 0 <= code && code < 256 {
            self.down[code as usize] = down;
        }
    }

    /// Whether the key with this code was down.
    pub fn is_down(&self, code: i32) -> (down: bool)
        ensures
            down == self.down_at(code as int),
    {
        0 <= code && code < 256 && self.down[code as usize]
    }

    /// Scans the key codes in order and gives the first that was down.
    pub fn first_key_down(&self) -> (found: Option<i32>)
        ensures
            found == self.first_down(),
            match found {
                Some(code) => self.is_first_down(code as int),
                None => self.none_down(),
            },
    {
        let mut code: i32 = FIRST_CAPTURED_KEY;
        while code < END_CAPTURED_KEY
            invariant
                FIRST_CAPTURED_KEY <= code <= END_CAPTURED_KEY,
                forall|k: int| FIRST_CAPTURED_KEY <= k < code ==> !self.down_at(k),
            decreases END_CAPTURED_KEY - code,
        {
            if self.down[code as usize] {
                proof {
                    self.lemma_first_down_is_unique(code);
                }
                return Some(code);
            }
            code = code + 1;
        }
        None
    }

    /// At most one key code is the first that was down.
    pub proof fn lemma_first_down_is_unique(&self, code: i32)
        requires
            self.is_first_down(code as int),
        ensures
            self.first_down() == Some(code),
    {
        let chosen = choose|c: i32| self.is_first_down(c as int);
        assert(self.is_first_down(chosen as int));
        assert(!self.none_down());
        if chosen < code {
            assert(!self.down_at(chosen as int));
        }
        if code < chosen {
            assert(!self.down_at(code as int));
        }
    }
}

} // verus!
