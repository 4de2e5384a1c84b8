//! The activation chord: the keys that must all be down for a toggle.

use vstd::prelude::*;
use crate::key::Key;
use crate::pressed::PressedKeys;

verus! {

/// The keys of the standard activation chord: W together with AltGr.
pub open spec fn standard_chord() -> Set<Key> {
    set![Key::KeyW, Key::AltGr]
}

/// The set of keys that toggles navigation mode when all of them are down.
///
/// There is one binding, the standard one, and once made it never changes.
/// It is held as data, so the engine asks the binding about keys instead of
/// naming them.
pub struct ChordBinding {
    keys: Vec<Key>,
}

impl View for ChordBinding {
    type V = Set<Key>;

    closed spec fn view(&self) -> Set<Key> {
        self.keys@.to_set()
    }
}

impl ChordBinding {
    #[verifier::type_invariant]
    spec fn holds_standard_keys(self) -> bool {
        self.keys@.to_set() == standard_chord()
    }

    /// The standard chord, W with AltGr.
    pub fn standard() -> (binding: Self)
        ensures
            binding@ == standard_chord(),
    {
        let mut keys: Vec<Key> = Vec::new();
        keys.push(Key::KeyW);
        keys.push(Key::AltGr);
        assert(keys@.to_set() =~= standard_chord()) by {
            assert(keys@[0] == Key::KeyW);
            assert(keys@[1] == Key::AltGr);
        }
        ChordBinding { keys }
    }

    /// Whether `key` is one of the chord's keys.
    pub fn contains(&self, key: Key) -> (member: bool)
        ensures
            self@ == standard_chord(),
            member == self@.contains(key),
    {
        proof {
            use_type_invariant(self);
        }
        let mut i: usize = 0;
        while i < self.keys.len()
            invariant
                self@ == standard_chord(),
                i <= self.keys@.len(),
                forall|j: int| 0 <= j < i ==> self.keys@[j] != key,
            decreases self.keys@.len() - i,
        {
            if self.keys[i] == key {
                return true;
            }
            i += 1;
        }
        false
    }

    /// Whether every key of the chord is down in `pressed`.
    pub fn held_in(&self, pressed: &PressedKeys) -> (held: bool)
        ensures
            self@ == standard_chord(),
            held == self@.subset_of(pressed@),
    {
        proof {
            use_type_invariant(self);
        }
        let mut i: usize = 0;
        while i < self.keys.len()
            invariant
                self@ == standard_chord(),
                i <= self.keys@.len(),
                forall|j: int| 0 <= j < i ==> pressed@.contains(self.keys@[j]),
            decreases self.keys@.len() - i,
        {
            if !pressed.contains(self.keys[i]) {
                assert(self@.contains(self.keys@[i as int]));
                return false;
            }
            i += 1;
        }
        true
    }
}

} // verus!
