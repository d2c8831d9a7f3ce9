use vstd::prelude::*;
use vstd::slice::slice_to_vec;

use std::collections::BTreeMap;

verus! {

broadcast use vstd::laws_cmp::group_laws_cmp;

/// The contents of the store after writing `value` under `key`: an existing
/// entry is kept unchanged (entries are write-once), a missing one is
/// created.
pub open spec fn spec_store_effect(c: Map<u128, Seq<u8>>, key: u128, value: Seq<u8>) -> Map<
    u128,
    Seq<u8>,
> {
    if c.contains_key(key) {
        c
    } else {
        c.insert(key, value)
    }
}

/// The deduplicating adapter over an ordered key-value store: at most one
/// entry per fingerprint key, written once and never mutated or deleted.
pub struct DedupStore {
    db: BTreeMap<u128, Vec<u8>>,
}

impl DedupStore {
    /// The stored entries: value bytes keyed by fingerprint.
    pub closed spec fn contents(self) -> Map<u128, Seq<u8>> {
        self.db@.map_values(|v: Vec<u8>| v@)
    }

    /// An empty store.
    pub fn new() -> (s: Self)
        ensures
            s.contents() == Map::<u128, Seq<u8>>::empty(),
    {
        let s = DedupStore { db: BTreeMap::new() };
        proof {
            assert(s.contents() =~= Map::<u128, Seq<u8>>::empty());
        }
        s
    }

    /// How many entries the store holds.
    pub fn len(&self) -> (n: usize)
        ensures
            n == self.contents().len(),
    {
        proof {
            assert(self.contents().dom() =~= self.db@.dom());
        }
        self.db.len()
    }

    /// A point read of the entry under `key`.
    pub fn get(&self, key: u128) -> (r: Option<Vec<u8>>)
        ensures
            match r {
                Some(v) => self.contents().contains_key(key) && v@ == self.contents()[key],
                None => !self.contents().contains_key(key),
            },
    {
        match self.db.get(&key) {
            Some(v) => Some(slice_to_vec(v.as_slice())),
            None => None,
        }
    }

    /// The write half of deduplication: stores `value` under `key` only when
    /// no entry exists there, and reports whether one was created.
    pub fn put_if_absent(&mut self, key: u128, value: Vec<u8>) -> (created: bool)
        ensures
            created == !old(self).contents().contains_key(key),
            final(self).contents() == spec_store_effect(old(self).contents(), key, value@),
    {
        if self.db.contains_key(&key) {
            false
        } else {
            self.db.insert(key, value);
            proof {
                assert(self.contents() =~= old(self).contents().insert(key, value@));
            }
            true
        }
    }
}

} // verus!
