//! The set of keys currently known to be down.

use vstd::prelude::*;
use crate::key::Key;

verus! {

/// The keys that are down, as far as the engine has seen.
///
/// Seen from outside this is a finite set of keys. Inside, the keys are kept
/// in the order they went down, each at most once.
pub struct PressedKeys {
    keys: Vec<Key>,
}

impl View for PressedKeys {
    type V = Set<Key>;

    closed spec fn view(&self) -> Set<Key> {
        self.keys@.to_set()
    }
}

impl PressedKeys {
    #[verifier::type_invariant]
    spec fn each_key_once(self) -> bool {
        self.keys@.no_duplicates()
    }

    /// The keys down are finitely many.
    pub proof fn is_finite(&self)
        ensures
            self@.finite(),
    {
        vstd::seq_lib::seq_to_set_is_finite(self.keys@);
    }

    /// No key is down.
    pub fn new() -> (pressed: Self)
        ensures
            pressed@ == Set::<Key>::empty(),
    {
        let pressed = PressedKeys { keys: Vec::new() };
        assert(pressed.keys@.to_set() =~= Set::<Key>::empty());
        pressed
    }

    /// Where `key` sits in the list, if it is down.
    fn position(&self, key: Key) -> (found: Option<usize>)
        ensures
            match found {
                Some(i) => i < self.keys@.len() && self.keys@[i as int] == key,
                None => !self.keys@.contains(key),
            },
    {
        let mut i: usize = 0;
        while i < self.keys.len()
            invariant
                i <= self.keys@.len(),
                forall|j: int| 0 <= j < i ==> self.keys@[j] != key,
            decreases self.keys@.len() - i,
        {
            if self.keys[i] == key {
                return Some(i);
            }
            i += 1;
        }
        None
    }

    /// Whether `key` is down.
    pub fn contains(&self, key: Key) -> (down: bool)
        ensures
            down == self@.contains(key),
    {
        self.position(key).is_some()
    }

    /// How many keys are down.
    pub fn len(&self) -> (count: usize)
        ensures
            self@.finite(),
            count == self@.len(),
    {
        proof {
            use_type_invariant(self);
            self.keys@.unique_seq_to_set();
        }
        self.keys.len()
    }

    /// Records that `key` went down. Returns whether it was up before.
    pub fn insert(&mut self, key: Key) -> (fresh: bool)
        ensures
            final(self)@ == old(self)@.insert(key),
            fresh == !old(self)@.contains(key),
    {
        proof {
            use_type_invariant(&*self);
        }
        match self.position(key) {
            Some(_) => {
                assert(self@.insert(key) =~= self@);
                false
            },
            None => {
                let mut keys: Vec<Key> = Vec::new();
                std::mem::swap(&mut keys, &mut self.keys);
                proof {
                    keys@.lemma_push_to_set_commute(key);
                }
                keys.push(key);
                self.keys = keys;
                true
            },
        }
    }

    /// Records that `key` came up. Returns whether it was down before; if it
    /// was not, nothing changes.
    pub fn remove(&mut self, key: Key) -> (was_down: bool)
        ensures
            final(self)@ == old(self)@.remove(key),
            was_down == old(self)@.contains(key),
            !was_down ==> final(self)@ == old(self)@,
    {
        proof {
            use_type_invariant(&*self);
        }
        match self.position(key) {
            Some(i) => {
                let ghost before = self.keys@;
                let mut keys: Vec<Key> = Vec::new();
                std::mem::swap(&mut keys, &mut self.keys);
                keys.remove(i);
                self.keys = keys;
                assert(self.keys@.to_set() =~= before.to_set().remove(key)) by {
                    assert forall|k: Key| self.keys@.contains(k) <==> (before.contains(k) && k != key) by {
                        if self.keys@.contains(k) {
                            let j = choose|j: int| 0 <= j < self.keys@.len() && self.keys@[j] == k;
                            if j < i {
                                assert(before[j] == k);
                            } else {
                                assert(before[j + 1] == k);
                            }
                        }
                        if before.contains(k) && k != key {
                            let j = choose|j: int| 0 <= j < before.len() && before[j] == k;
                            if j < i {
                                assert(self.keys@[j] == k);
                            } else {
                                assert(self.keys@[j - 1] == k);
                            }
                        }
                    }
                }
                true
            },
            None => {
                assert(self@.remove(key) =~= self@);
                false
            },
        }
    }
}

} // verus!
