//! The record store: a mapping from id to record, kept together with the
//! append-only index of ids in the order in which they were inserted.

use std::collections::HashMap;
use vstd::prelude::*;
use crate::error::RegistryError;
use crate::record::{TaskCompletion, TaskCompletionView};

verus! {

broadcast use vstd::std_specs::hash::group_hash_axioms;

/// Records by id, and the ids in insertion order.
///
/// The two are changed together only, so that an id is in the index exactly
/// when a record is stored under it, and no id is listed twice.
pub struct RegistryStore {
    records: HashMap<u64, TaskCompletion>,
    index: Vec<u64>,
}

/// The mathematical value of a [`RegistryStore`].
pub struct StoreContents {
    /// The ids, oldest first.
    pub index: Seq<u64>,
    /// The record stored under each id.
    pub records: Map<u64, TaskCompletionView>,
}

impl StoreContents {
    /// Index and mapping correspond one to one.
    pub open spec fn wf(self) -> bool {
        &&& self.index.no_duplicates()
        &&& forall|id: u64| self.records.contains_key(id) <==> self.index.contains(id)
    }

    /// The store that holds nothing.
    pub open spec fn empty() -> StoreContents {
        StoreContents { index: Seq::empty(), records: Map::empty() }
    }

    /// Number of entries in the index.
    pub open spec fn len(self) -> nat {
        self.index.len()
    }

    /// Whether a record is stored under `id`.
    pub open spec fn contains(self, id: u64) -> bool {
        self.records.contains_key(id)
    }

    /// The store after `record` was added under its own id, as the newest
    /// entry.
    pub open spec fn insert(self, record: TaskCompletionView) -> StoreContents {
        StoreContents {
            index: self.index.push(record.id),
            records: self.records.insert(record.id, record),
        }
    }

    /// The store after the record under `id` was overwritten with `record`.
    /// The index is untouched.
    pub open spec fn update(self, id: u64, record: TaskCompletionView) -> StoreContents {
        StoreContents { records: self.records.insert(id, record), ..self }
    }

    /// The record at each position of the index, oldest first.
    pub open spec fn history(self) -> Seq<TaskCompletionView> {
        Seq::new(self.index.len(), |position: int| self.records[self.index[position]])
    }

    /// Adding a record under an id that is not stored yet keeps index and
    /// mapping in correspondence.
    pub proof fn lemma_insert_wf(self, record: TaskCompletionView)
        requires
            self.wf(),
            !self.contains(record.id),
        ensures
            self.insert(record).wf(),
    {
        let after = self.insert(record);
        let last = self.index.len() as int;
        assert forall|i: int, j: int|
            0 <= i < after.index.len() && 0 <= j < after.index.len() && i != j implies after.index[i]
            != after.index[j] by {
            if i < last {
                assert(self.index.contains(self.index[i]));
            }
            if j < last {
                assert(self.index.contains(self.index[j]));
            }
        }
        assert forall|id: u64| after.records.contains_key(id) <==> after.index.contains(id) by {
            if after.records.contains_key(id) {
                if id == record.id {
                    assert(after.index[last] == id);
                } else {
                    assert(self.index.contains(id));
                    let at = choose|i: int| 0 <= i < self.index.len() && self.index[i] == id;
                    assert(after.index[at] == id);
                }
            }
            if after.index.contains(id) {
                let at = choose|i: int| 0 <= i < after.index.len() && after.index[i] == id;
                if at < last {
                    assert(self.index.contains(self.index[at]));
                }
            }
        }
    }

    /// A record added under a fresh id becomes the newest entry of the
    /// history; the older entries stay as they were.
    pub proof fn lemma_insert_history(self, record: TaskCompletionView)
        requires
            self.wf(),
            !self.contains(record.id),
        ensures
            self.insert(record).history() == self.history().push(record),
    {
        let after = self.insert(record);
        assert forall|position: int| 0 <= position < self.index.len() implies after.history()[position]
            == self.history()[position] by {
            assert(self.index.contains(self.index[position]));
        }
        assert(after.history() =~= self.history().push(record));
    }

    /// Overwriting the record under the id at `position` replaces that entry
    /// of the history and no other.
    pub proof fn lemma_update_history(self, position: int, record: TaskCompletionView)
        requires
            self.wf(),
            0 <= position < self.index.len(),
        ensures
            self.update(self.index[position], record).history() == self.history().update(
                position,
                record,
            ),
    {
        let after = self.update(self.index[position], record);
        assert(after.history() =~= self.history().update(position, record));
    }

    /// Overwriting the record under a stored id keeps index and mapping in
    /// correspondence.
    pub proof fn lemma_update_wf(self, id: u64, record: TaskCompletionView)
        requires
            self.wf(),
            self.contains(id),
        ensures
            self.update(id, record).wf(),
    {
        let after = self.update(id, record);
        assert forall|other: u64| after.records.contains_key(other) <==> after.index.contains(
            other,
        ) by {
            assert(self.records.contains_key(other) <==> self.index.contains(other));
        }
    }
}

impl View for RegistryStore {
    type V = StoreContents;

    closed spec fn view(&self) -> StoreContents {
        StoreContents {
            index: self.index@,
            records: Map::new(
                |id: u64| self.records@.contains_key(id),
                |id: u64| self.records@[id]@,
            ),
        }
    }
}

impl RegistryStore {
    /// The store's invariant: index and mapping correspond one to one.
    pub open spec fn wf(&self) -> bool {
        self@.wf()
    }

    /// An empty store.
    pub fn new() -> (store: Self)
        ensures
            store.wf(),
            store@ == StoreContents::empty(),
    {
        let store = RegistryStore { records: HashMap::new(), index: Vec::new() };
        assert(store@.records =~= Map::<u64, TaskCompletionView>::empty());
        store
    }

    /// Number of entries in the index.
    pub fn len(&self) -> (count: u64)
        ensures
            count == self@.len(),
    {
        self.index.len() as u64
    }

    /// The id at `position` of the index, counted from zero in insertion
    /// order; `None` exactly when `position` is past the end.
    pub fn index_at(&self, position: u64) -> (id: Option<u64>)
        ensures
            position < self@.len() ==> id == Some(self@.index[position as int]),
            position >= self@.len() ==> id.is_none(),
    {
        if position < self.index.len() as u64 {
            Some(self.index[position as usize])
        } else {
            None
        }
    }

    /// A copy of the record stored under `id`; `None` exactly when there is
    /// none.
    pub fn get(&self, id: u64) -> (record: Option<TaskCompletion>)
        ensures
            self@.contains(id) ==> record.is_some() && record.unwrap()@ == self@.records[id],
            !self@.contains(id) ==> record.is_none(),
    {
        match self.records.get(&id) {
            Some(record) => Some(record.clone()),
            None => None,
        }
    }

    /// Adds `record` under its id and appends the id to the index.
    ///
    /// An id that is already stored is rejected with `DuplicateId`, and the
    /// store is left as it was.
    pub fn insert(&mut self, record: TaskCompletion) -> (outcome: Result<(), RegistryError>)
        requires
            old(self).wf(),
        ensures
            final(self).wf(),
            !old(self)@.contains(record.id) ==> outcome == Ok::<(), RegistryError>(())
                && final(self)@ == old(self)@.insert(record@),
            old(self)@.contains(record.id) ==> outcome == Err::<(), RegistryError>(
                RegistryError::DuplicateId,
            ) && final(self)@ == old(self)@,
    {
        let id = record.id;
        if self.records.contains_key(&id) {
            return Err(RegistryError::DuplicateId);
        }
        proof {
            old(self)@.lemma_insert_wf(record@);
        }
        self.records.insert(id, record);
        self.index.push(id);
        assert(self@.records =~= old(self)@.records.insert(id, record@));
        Ok(())
    }

    /// Overwrites the record stored under `id` with `record`.
    ///
    /// An id that is not stored is rejected with `NotFound`, and the store is
    /// left as it was.
    pub fn update(&mut self, id: u64, record: TaskCompletion) -> (outcome: Result<
        (),
        RegistryError,
    >)
        requires
            old(self).wf(),
        ensures
            final(self).wf(),
            old(self)@.contains(id) ==> outcome == Ok::<(), RegistryError>(()) && final(self)@
                == old(self)@.update(id, record@),
            !old(self)@.contains(id) ==> outcome == Err::<(), RegistryError>(
                RegistryError::NotFound,
            ) && final(self)@ == old(self)@,
    {
        if !self.records.contains_key(&id) {
            return Err(RegistryError::NotFound);
        }
        proof {
            old(self)@.lemma_update_wf(id, record@);
        }
        self.records.insert(id, record);
        assert(self@.records =~= old(self)@.records.insert(id, record@));
        Ok(())
    }
}

} // verus!
