//! Keyed storage of records: one record under each address, made once and
//! opened by its address afterwards.

use crate::errors::NcashError;
use crate::identity::{position_of_identity, Identity};
use vstd::prelude::*;

verus! {

/// Records stored under addresses.
pub struct Store<T> {
    keys: Vec<Identity>,
    records: Vec<T>,
}

impl<T> View for Store<T> {
    type V = Map<Identity, T>;

    /// The record stored under each occupied address.
    closed spec fn view(&self) -> Map<Identity, T> {
        Map::new(
            |key: Identity| self.keys@.contains(key),
            |key: Identity| self.records@[self.keys@.index_of(key)],
        )
    }
}

/// In a list without duplicates an entry is found where it stands.
proof fn lemma_index_of_unique(keys: Seq<Identity>, i: int)
    requires
        keys.no_duplicates(),
        0 <= i < keys.len(),
    ensures
        keys.index_of(keys[i]) == i,
{
    let found = keys.index_of(keys[i]);
    assert(0 <= found < keys.len() && keys[found] == keys[i]);
}

impl<T> Store<T> {
    /// The invariant of the storage: no address is occupied twice.
    pub closed spec fn wf(&self) -> bool {
        &&& self.keys@.len() == self.records@.len()
        &&& self.keys@.no_duplicates()
    }

    /// An empty storage.
    pub fn new() -> (store: Store<T>)
        ensures
            store.wf(),
            store@ == Map::<Identity, T>::empty(),
    {
        let store = Store { keys: Vec::new(), records: Vec::new() };
        assert(store@ =~= Map::<Identity, T>::empty());
        store
    }

    /// Whether a record is stored under `key`.
    pub fn contains(&self, key: &Identity) -> (occupied: bool)
        requires
            self.wf(),
        ensures
            occupied == self@.dom().contains(*key),
    {
        position_of_identity(&self.keys, key).is_some()
    }

    /// Stores `record` under `key`. An occupied address refuses with
    /// `AlreadyExists`, and the storage is left as it was.
    pub fn init(&mut self, key: Identity, record: T) -> (stored: Result<(), NcashError>)
        requires
            old(self).wf(),
        ensures
            final(self).wf(),
            match stored {
                Ok(()) => !old(self)@.dom().contains(key) && final(self)@ == old(self)@.insert(
                    key,
                    record,
                ),
                Err(e) => e == NcashError::AlreadyExists && old(self)@.dom().contains(key)
                    && final(self)@ == old(self)@,
            },
    {
        if position_of_identity(&self.keys, &key).is_some() {
            return Err(NcashError::AlreadyExists);
        }
        let ghost old_keys = self.keys@;
        self.keys.push(key);
        self.records.push(record);
        proof {
            let new_keys = self.keys@;
            assert forall|k: Identity| #[trigger] new_keys.contains(k) <==> (k == key
                || old_keys.contains(k)) by {
                if old_keys.contains(k) {
                    let i = old_keys.index_of(k);
                    assert(new_keys[i] == k);
                }
                if k == key {
                    assert(new_keys[old_keys.len() as int] == key);
                }
            }
            assert forall|k: Identity| new_keys.contains(k) implies #[trigger] self@[k] == old(
                self,
            )@.insert(key, record)[k] by {
                if k == key {
                    lemma_index_of_unique(new_keys, old_keys.len() as int);
                } else {
                    let i = old_keys.index_of(k);
                    assert(new_keys[i] == k);
                    lemma_index_of_unique(new_keys, i);
                }
            }
            assert(self@ =~= old(self)@.insert(key, record));
        }
        Ok(())
    }

    /// Opens the record stored under `key`. A vacant address gives
    /// `NotFound`.
    pub fn open(&self, key: &Identity) -> (opened: Result<&T, NcashError>)
        requires
            self.wf(),
        ensures
            match opened {
                Ok(record) => self@.dom().contains(*key) && *record == self@[*key],
                Err(e) => e == NcashError::NotFound && !self@.dom().contains(*key),
            },
    {
        match position_of_identity(&self.keys, key) {
            Some(i) => {
                proof {
                    lemma_index_of_unique(self.keys@, i as int);
                }
                Ok(&self.records[i])
            },
            None => Err(NcashError::NotFound),
        }
    }

    /// Takes the record stored under `key` out of the storage, which leaves
    /// the address vacant. A vacant address gives `NotFound`, and the storage
    /// is left as it was.
    pub fn take(&mut self, key: &Identity) -> (taken: Result<T, NcashError>)
        requires
            old(self).wf(),
        ensures
            final(self).wf(),
            match taken {
                Ok(record) => old(self)@.dom().contains(*key) && record == old(self)@[*key]
                    && final(self)@ == old(self)@.remove(*key),
                Err(e) => e == NcashError::NotFound && !old(self)@.dom().contains(*key)
                    && final(self)@ == old(self)@,
            },
    {
        match position_of_identity(&self.keys, key) {
            Some(i) => {
                let ghost old_keys = self.keys@;
                        proof {
                    lemma_index_of_unique(old_keys, i as int);
                }
                self.keys.remove(i);
                let record = self.records.remove(i);
                proof {
                    let new_keys = self.keys@;
                    let at = i as int;
                    assert forall|a: int, b: int|
                        0 <= a < new_keys.len() && 0 <= b < new_keys.len() && a != b implies new_keys[a]
                        != new_keys[b] by {
                        let a0 = if a < at { a } else { a + 1 };
                        let b0 = if b < at { b } else { b + 1 };
                        assert(new_keys[a] == old_keys[a0] && new_keys[b] == old_keys[b0]);
                    }
                    assert forall|k: Identity| #[trigger] new_keys.contains(k) <==> (k != *key
                        && old_keys.contains(k)) by {
                        if new_keys.contains(k) {
                            let a = new_keys.index_of(k);
                            let a0 = if a < at { a } else { a + 1 };
                            assert(old_keys[a0] == k);
                        }
                        if k != *key && old_keys.contains(k) {
                            let a0 = old_keys.index_of(k);
                            let a = if a0 < at { a0 } else { a0 - 1 };
                            assert(new_keys[a] == k);
                        }
                    }
                    assert forall|k: Identity| new_keys.contains(k) implies #[trigger] self@[k]
                        == old(self)@[k] by {
                        let a = new_keys.index_of(k);
                        let a0 = if a < at { a } else { a + 1 };
                        assert(old_keys[a0] == k);
                        lemma_index_of_unique(old_keys, a0);
                        lemma_index_of_unique(new_keys, a);
                    }
                    assert(self@ =~= old(self)@.remove(*key));
                }
                Ok(record)
            },
            None => Err(NcashError::NotFound),
        }
    }
}

} // verus!
