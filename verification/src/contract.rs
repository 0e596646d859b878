//! The registry itself: configuration, record store and id counter, with the
//! operations that callers invoke.
//!
//! The caller's identity is an explicit argument of every operation that
//! depends on it.

use vstd::prelude::*;
use crate::access::{ConfigView, RegistryConfig};
use crate::error::RegistryError;
use crate::query::{latest_start, latest_window, page_end, page_start, page_window};
use crate::record::{record_views, TaskCompletion, TaskCompletionView, TaskStatus};
use crate::store::RegistryStore;

verus! {

/// The registry of task-completion claims.
pub struct TaskCompletionContract {
    config: RegistryConfig,
    store: RegistryStore,
    next_id: u64,
}

/// The mathematical value of a [`TaskCompletionContract`]: its configuration
/// and the history of its records, oldest first.
pub struct RegistryView {
    pub config: ConfigView,
    pub records: Seq<TaskCompletionView>,
}

impl RegistryView {
    /// Ids are assigned in sequence from 1, so the record at position `i`
    /// carries the id `i + 1`; no record that awaits verification has a
    /// result; and the next id still fits in 64 bits.
    pub open spec fn wf(self) -> bool {
        &&& self.records.len() < u64::MAX
        &&& forall|position: int|
            0 <= position < self.records.len() ==> {
                &&& (#[trigger] self.records[position]).id == position + 1
                &&& self.records[position].wf()
            }
    }

    /// The registry right after initialization by `owner`: no verifier, no
    /// records.
    pub open spec fn initial(owner: Seq<char>) -> RegistryView {
        RegistryView { config: ConfigView::initial(owner), records: Seq::empty() }
    }

    /// The id that the next registration will be given.
    pub open spec fn next_id(self) -> nat {
        self.records.len() + 1
    }

    /// Whether a record carries `id`.
    pub open spec fn contains(self, id: u64) -> bool {
        1 <= id <= self.records.len()
    }

    /// The record that carries `id`.
    pub open spec fn record(self, id: u64) -> TaskCompletionView
        recommends
            self.contains(id),
    {
        self.records[id - 1]
    }

    /// The registry under a new owner.
    pub open spec fn set_owner(self, new_owner: Seq<char>) -> RegistryView {
        RegistryView { config: self.config.with_owner(new_owner), ..self }
    }

    /// The registry with `verifier` as the verifier.
    pub open spec fn set_verifier(self, verifier: Seq<char>) -> RegistryView {
        RegistryView { config: self.config.with_verifier(verifier), ..self }
    }

    /// The registry after `caller` registered a claim: one more record, with
    /// the next id, at the end of the history.
    pub open spec fn register(
        self,
        caller: Seq<char>,
        task_id: Seq<char>,
        evidence: Seq<char>,
    ) -> RegistryView {
        RegistryView {
            records: self.records.push(
                TaskCompletionView::registered(self.next_id() as u64, caller, task_id, evidence),
            ),
            ..self
        }
    }

    /// Whether `caller` may verify the record `id` now, and if not, why not.
    /// The caller is checked first, then the id, then the record's status.
    pub open spec fn verify_gate(self, caller: Seq<char>, id: u64) -> Result<(), RegistryError> {
        if !self.config.permits_verifier(caller) {
            Err(RegistryError::PermissionDenied)
        } else if !self.contains(id) {
            Err(RegistryError::NotFound)
        } else if self.record(id).status != TaskStatus::Registered {
            Err(RegistryError::InvalidState)
        } else {
            Ok(())
        }
    }

    /// The registry after the record `id` was verified with `result`.
    pub open spec fn verify(self, id: u64, result: Seq<char>) -> RegistryView
        recommends
            self.contains(id),
    {
        RegistryView {
            records: self.records.update(id - 1, self.record(id).verified_with(result)),
            ..self
        }
    }

    /// The `limit` newest records, oldest first; all of them when there are
    /// no more than `limit`.
    pub open spec fn latest(self, limit: nat) -> Seq<TaskCompletionView> {
        self.records.subrange(
            latest_start(self.records.len(), limit) as int,
            self.records.len() as int,
        )
    }

    /// The records at positions `from_index` up to, not including,
    /// `from_index + limit`, as far as they exist.
    pub open spec fn page(self, from_index: nat, limit: nat) -> Seq<TaskCompletionView> {
        self.records.subrange(
            page_start(self.records.len(), from_index) as int,
            page_end(self.records.len(), from_index, limit) as int,
        )
    }
}

impl View for TaskCompletionContract {
    type V = RegistryView;

    closed spec fn view(&self) -> RegistryView {
        RegistryView { config: self.config@, records: self.store@.history() }
    }
}

impl TaskCompletionContract {
    /// How the fields hang together: the store is consistent, its index
    /// lists the ids `1, 2, ..` in order, each record is stored under the id
    /// it carries, and the counter is one past the last id.
    pub closed spec fn consistent(&self) -> bool {
        &&& self.store.wf()
        &&& self.next_id == self.store@.index.len() + 1
        &&& forall|position: int|
            0 <= position < self.store@.index.len() ==> #[trigger] self.store@.index[position]
                == position + 1
        &&& forall|id: u64| #[trigger]
            self.store@.records.contains_key(id) ==> self.store@.records[id].id == id
                && self.store@.records[id].wf()
    }

    /// The registry's invariant. Every operation keeps it.
    pub open spec fn wf(&self) -> bool {
        &&& self.consistent()
        &&& self@.wf()
    }

    /// The store holds a record under `id` exactly when `id` is one of the
    /// ids assigned so far, and that record is the history's entry for `id`.
    proof fn lemma_lookup(&self, id: u64)
        requires
            self.consistent(),
        ensures
            self.store@.contains(id) <==> self@.contains(id),
            self@.contains(id) ==> self.store@.index[id - 1] == id && self.store@.records[id]
                == self@.record(id),
    {
        let index = self.store@.index;
        if self@.contains(id) {
            assert(index[id - 1] == id);
            assert(index.contains(id));
        }
        if self.store@.contains(id) {
            assert(index.contains(id));
        }
    }

    /// From the fields' consistency to the invariant of the history.
    proof fn lemma_history_wf(&self)
        requires
            self.consistent(),
        ensures
            self@.wf(),
    {
        let index = self.store@.index;
        assert forall|position: int| 0 <= position < self@.records.len() implies {
            &&& (#[trigger] self@.records[position]).id == position + 1
            &&& self@.records[position].wf()
        } by {
            assert(index.contains(index[position]));
            assert(self.store@.records.contains_key(index[position]));
        }
    }

    /// Initializes the registry: `owner_id` owns it, no verifier is
    /// configured, and there are no records.
    pub fn new(owner_id: String) -> (registry: Self)
        ensures
            registry.wf(),
            registry@ == RegistryView::initial(owner_id@),
    {
        let registry = TaskCompletionContract {
            config: RegistryConfig::new(owner_id),
            store: RegistryStore::new(),
            next_id: 1,
        };
        assert(registry@.records =~= Seq::<TaskCompletionView>::empty());
        registry
    }

    /// Rebuilds a registry from what an earlier one held: its owner, its
    /// verifier, and its records, oldest first.
    ///
    /// The records are accepted exactly when they form a history that the
    /// registry could have produced: ids `1, 2, ..` in order, no result on a
    /// record that awaits verification, and room for a next id. Otherwise
    /// the answer is `None`.
    pub fn restore(owner: String, verifier: Option<String>, records: Vec<TaskCompletion>) -> (restored:
        Option<Self>)
        ensures
            ({
                let config = (RegistryConfig { owner, verifier })@;
                let state = RegistryView { config, records: record_views(records@) };
                &&& state.wf() ==> restored.is_some() && restored.unwrap().wf()
                    && restored.unwrap()@ == state
                &&& !state.wf() ==> restored.is_none()
            }),
    {
        let ghost history = record_views(records@);
        if records.len() as u64 == u64::MAX {
            return None;
        }
        let mut store = RegistryStore::new();
        let mut position: usize = 0;
        while position < records.len()
            invariant
                history == record_views(records@),
                position <= records.len() < u64::MAX,
                store.wf(),
                store@.index.len() == position,
                forall|at: int| 0 <= at < position ==> #[trigger] store@.index[at] == at + 1,
                forall|id: u64| #[trigger]
                    store@.records.contains_key(id) ==> store@.records[id].id == id
                        && store@.records[id].wf(),
                forall|at: int|
                    0 <= at < position ==> (#[trigger] history[at]).id == at + 1 && history[at].wf(),
                store@.history() == history.subrange(0, position as int),
            decreases records.len() - position,
        {
            let record = records[position].clone();
            assert(record@ == history[position as int]);
            let id: u64 = position as u64 + 1;
            if record.id != id {
                return None;
            }
            if record.is_registered() && !record.result.as_str().is_empty() {
                return None;
            }
            proof {
                if store@.contains(id) {
                    assert(store@.index.contains(id));
                }
                store@.lemma_insert_history(record@);
                assert(history.subrange(0, position + 1) =~= history.subrange(0, position as int).push(
                    history[position as int],
                ));
            }
            let inserted = store.insert(record);
            assert(inserted.is_ok());
            position = position + 1;
        }
        assert(history.subrange(0, position as int) =~= history);
        let next_id: u64 = records.len() as u64 + 1;
        let registry = TaskCompletionContract {
            config: RegistryConfig { owner, verifier },
            store,
            next_id,
        };
        Some(registry)
    }

    /// Hands the registry to `new_owner`, on behalf of `caller`.
    ///
    /// Only the owner may do this: any other caller gets `PermissionDenied`
    /// and nothing changes. The new owner is taken as given, also when it is
    /// the old one.
    pub fn set_owner(&mut self, caller: &String, new_owner: String) -> (outcome: Result<
        (),
        RegistryError,
    >)
        requires
            old(self).wf(),
        ensures
            final(self).wf(),
            old(self)@.config.permits_owner(caller@) ==> outcome == Ok::<(), RegistryError>(())
                && final(self)@ == old(self)@.set_owner(new_owner@),
            !old(self)@.config.permits_owner(caller@) ==> outcome == Err::<(), RegistryError>(
                RegistryError::PermissionDenied,
            ) && final(self)@ == old(self)@,
    {
        if let Err(denied) = self.config.assert_owner(caller) {
            return Err(denied);
        }
        self.config.owner = new_owner;
        Ok(())
    }

    /// The current owner.
    pub fn get_owner(&self) -> (owner: String)
        ensures
            owner@ == self@.config.owner,
    {
        self.config.owner.clone()
    }

    /// Makes `verifier` the verifier, on behalf of `caller`. From then on
    /// the owner no longer passes the verifier gate, unless it is `verifier`
    /// itself.
    ///
    /// Only the owner may do this: any other caller gets `PermissionDenied`
    /// and nothing changes.
    pub fn set_verifier(&mut self, caller: &String, verifier: String) -> (outcome: Result<
        (),
        RegistryError,
    >)
        requires
            old(self).wf(),
        ensures
            final(self).wf(),
            old(self)@.config.permits_owner(caller@) ==> outcome == Ok::<(), RegistryError>(())
                && final(self)@ == old(self)@.set_verifier(verifier@),
            !old(self)@.config.permits_owner(caller@) ==> outcome == Err::<(), RegistryError>(
                RegistryError::PermissionDenied,
            ) && final(self)@ == old(self)@,
    {
        if let Err(denied) = self.config.assert_owner(caller) {
            return Err(denied);
        }
        self.config.verifier = Some(verifier);
        Ok(())
    }

    /// The configured verifier, or `None` while the owner acts as verifier.
    pub fn get_verifier(&self) -> (verifier: Option<String>)
        ensures
            match verifier {
                Some(name) => self@.config.verifier == Some(name@),
                None => self@.config.verifier.is_none(),
            },
    {
        match &self.config.verifier {
            Some(name) => Some(name.clone()),
            None => None,
        }
    }

    /// The id that the next registration will return: one more than the
    /// number of records.
    pub fn next_id(&self) -> (id: u64)
        requires
            self.wf(),
        ensures
            id == self@.next_id(),
    {
        self.next_id
    }

    /// Registers a claim by `caller` that `task_id` was completed, backed by
    /// `evidence`, and returns its id. Open to any caller.
    ///
    /// The ids run 1, 2, 3, ..: each call returns one more than the call
    /// before. The new record is `Registered`, has no result, and is the
    /// newest entry of the history. The last id that can be given is
    /// `u64::MAX - 1`.
    pub fn register(&mut self, caller: String, task_id: String, evidence: String) -> (id: u64)
        requires
            old(self).wf(),
            old(self)@.next_id() < u64::MAX,
        ensures
            final(self).wf(),
            id == old(self)@.next_id(),
            final(self)@ == old(self)@.register(caller@, task_id@, evidence@),
    {
        let id = self.next_id;
        let record = TaskCompletion::registered(id, caller, task_id, evidence);
        proof {
            self.lemma_lookup(id);
            self.store@.lemma_insert_history(record@);
        }
        let inserted = self.store.insert(record);
        assert(inserted.is_ok());
        self.next_id = id + 1;
        proof {
            self.lemma_history_wf();
        }
        id
    }

    /// The record that carries `id`, or `NotFound` exactly when there is
    /// none.
    fn get_task_completion_by_id(&self, id: u64) -> (found: Result<TaskCompletion, RegistryError>)
        requires
            self.wf(),
        ensures
            self@.contains(id) ==> found.is_ok() && found.unwrap()@ == self@.record(id),
            !self@.contains(id) ==> found == Err::<TaskCompletion, RegistryError>(
                RegistryError::NotFound,
            ),
    {
        proof {
            self.lemma_lookup(id);
        }
        match self.store.get(id) {
            Some(record) => Ok(record),
            None => Err(RegistryError::NotFound),
        }
    }

    /// Accepts the claim `id` with `result`, on behalf of `caller`, and
    /// returns `id`.
    ///
    /// The call is rejected, and nothing changes, with
    /// - `PermissionDenied` when `caller` does not pass the verifier gate;
    /// - else `NotFound` when no record carries `id`;
    /// - else `InvalidState` when the record is not `Registered`, so a
    ///   second verification of the same record always fails.
    ///
    /// Otherwise the record becomes `Verified` and holds `result`; all other
    /// fields, all other records and the configuration stay as they were.
    pub fn verify(&mut self, caller: &String, id: u64, result: String) -> (outcome: Result<
        u64,
        RegistryError,
    >)
        requires
            old(self).wf(),
        ensures
            final(self).wf(),
            match old(self)@.verify_gate(caller@, id) {
                Ok(_) => outcome == Ok::<u64, RegistryError>(id) && final(self)@ == old(self)@.verify(
                    id,
                    result@,
                ),
                Err(reason) => outcome == Err::<u64, RegistryError>(reason) && final(self)@ == old(
                    self,
                )@,
            },
    {
        if let Err(denied) = self.config.assert_verifier(caller) {
            return Err(denied);
        }
        let record = match self.get_task_completion_by_id(id) {
            Ok(record) => record,
            Err(missing) => {
                return Err(missing);
            },
        };
        if !record.is_registered() {
            return Err(RegistryError::InvalidState);
        }
        let verified = record.verified_with(result);
        proof {
            self.lemma_lookup(id);
            self.store@.lemma_update_history(id - 1, verified@);
        }
        let updated = self.store.update(id, verified);
        assert(updated.is_ok());
        proof {
            self.lemma_history_wf();
        }
        Ok(id)
    }

    /// The record that carries `id`, or `None` exactly when there is none.
    /// An absent record is an answer, not a failure.
    pub fn get_task_completion(&self, id: u64) -> (found: Option<TaskCompletion>)
        requires
            self.wf(),
        ensures
            self@.contains(id) ==> found.is_some() && found.unwrap()@ == self@.record(id),
            !self@.contains(id) ==> found.is_none(),
    {
        proof {
            self.lemma_lookup(id);
        }
        self.store.get(id)
    }

    /// Copies of the records at positions `start` up to, not including,
    /// `end` of the history, in that order.
    fn records_between(&self, start: u64, end: u64) -> (records: Vec<TaskCompletion>)
        requires
            self.wf(),
            start <= end <= self@.records.len(),
        ensures
            record_views(records@) == self@.records.subrange(start as int, end as int),
    {
        let mut records: Vec<TaskCompletion> = Vec::new();
        let mut position: u64 = start;
        while position < end
            invariant
                self.wf(),
                start <= position <= end <= self@.records.len(),
                record_views(records@) == self@.records.subrange(start as int, position as int),
            decreases end - position,
        {
            let id = self.store.index_at(position).unwrap();
            proof {
                self.lemma_lookup(id);
            }
            let record = self.store.get(id).unwrap();
            let ghost before = records@;
            records.push(record);
            assert(record_views(records@) =~= record_views(before).push(record@));
            assert(self@.records.subrange(start as int, position + 1) =~= self@.records.subrange(
                start as int,
                position as int,
            ).push(self@.records[position as int]));
            position = position + 1;
        }
        records
    }

    /// The `limit` most recently registered records, oldest first. With no
    /// more than `limit` records this is the whole history; with `limit`
    /// zero it is empty.
    pub fn get_latest_task_completions(&self, limit: u64) -> (records: Vec<TaskCompletion>)
        requires
            self.wf(),
        ensures
            record_views(records@) == self@.latest(limit as nat),
    {
        let (start, end) = latest_window(self.store.len(), limit);
        self.records_between(start, end)
    }

    /// The page of at most `limit` records that starts at position
    /// `from_index` of the history, oldest first. An offset at or past the
    /// end gives an empty page.
    pub fn get_task_completions_page(&self, from_index: u64, limit: u64) -> (records: Vec<
        TaskCompletion,
    >)
        requires
            self.wf(),
        ensures
            record_views(records@) == self@.page(from_index as nat, limit as nat),
    {
        let (start, end) = page_window(self.store.len(), from_index, limit);
        self.records_between(start, end)
    }
}

} // verus!
