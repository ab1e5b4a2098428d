use crate::types::{BatchDigest, WorkerId};
use vstd::prelude::*;

verus! {

/// Key of a digest store entry: a batch digest and the worker that holds it.
pub type StoreKey = (BatchDigest, WorkerId);

/// The abstract value of a key.
pub open spec fn key_view(k: StoreKey) -> (Seq<u8>, WorkerId) {
    (k.0@, k.1)
}

/// An in-memory digest store: the set of `(digest, worker)` pairs recorded as
/// present. Writing a key that is already there changes nothing.
pub struct DigestStore {
    keys: Vec<StoreKey>,
}

impl DigestStore {
    /// The keys recorded as present.
    pub closed spec fn view(&self) -> Set<(Seq<u8>, WorkerId)> {
        Set::new(|k: (Seq<u8>, WorkerId)| exists|i: int| 0 <= i < self.keys@.len() && key_view(self.keys@[i]) == k)
    }

    /// An empty store.
    pub fn new() -> (r: DigestStore)
        ensures
            r@ == Set::<(Seq<u8>, WorkerId)>::empty(),
    {
        let r = DigestStore { keys: Vec::new() };
        assert(r@ =~= Set::<(Seq<u8>, WorkerId)>::empty());
        r
    }

    /// Whether `key` is recorded as present.
    pub fn contains(&self, key: &StoreKey) -> (r: bool)
        ensures
            r == self@.contains(key_view(*key)),
    {
        let mut i: usize = 0;
        while i < self.keys.len()
            invariant
                0 <= i <= self.keys@.len(),
                forall|j: int| 0 <= j < i ==> key_view(self.keys@[j]) != key_view(*key),
            decreases self.keys@.len() - i,
        {
            let k = &self.keys[i];
            if k.1 == key.1 && k.0.same_as(&key.0) {
                assert(key_view(self.keys@[i as int]) == key_view(*key));
                return true;
            }
            i = i + 1;
        }
        false
    }

    /// Records `key` as present. Idempotent.
    pub fn write(&mut self, key: StoreKey)
        ensures
            final(self)@ == old(self)@.insert(key_view(key)),
    {
        if !self.contains(&key) {
            self.keys.push(key);
            assert(key_view(self.keys@[self.keys@.len() - 1]) == key_view(key));
        }
        assert(self@ =~= old(self)@.insert(key_view(key))) by {
            assert forall|k: (Seq<u8>, WorkerId)| old(self)@.contains(k) implies #[trigger] self@.contains(k) by {
                let i = choose|i: int| 0 <= i < old(self).keys@.len() && key_view(old(self).keys@[i]) == k;
                assert(key_view(self.keys@[i]) == k);
            }
        }
    }
}

} // verus!
