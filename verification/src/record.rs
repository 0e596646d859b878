//! A single task-completion claim and its lifecycle status.

use vstd::prelude::*;

verus! {

/// Lifecycle of a claim: it starts as `Registered` and may move once to
/// `Verified`, which is terminal.
#[derive(Clone, Copy, Debug, PartialEq, Eq, Structural)]
pub enum TaskStatus {
    Registered,
    Verified,
}

/// A claim that a task was completed.
///
/// `id`, `task_id`, `evidence` and `user` are fixed when the claim is
/// registered; `status` and `result` change together, once, when the claim is
/// verified.
#[derive(Debug, PartialEq, Eq)]
pub struct TaskCompletion {
    pub id: u64,
    pub status: TaskStatus,
    pub task_id: String,
    pub evidence: String,
    pub result: String,
    pub user: String,
}

/// The mathematical value of a [`TaskCompletion`]: the same fields, with each
/// string as its sequence of characters.
pub struct TaskCompletionView {
    pub id: u64,
    pub status: TaskStatus,
    pub task_id: Seq<char>,
    pub evidence: Seq<char>,
    pub result: Seq<char>,
    pub user: Seq<char>,
}

impl TaskCompletionView {
    /// The claim as it stands right after registration: status `Registered`,
    /// no result yet.
    pub open spec fn registered(
        id: u64,
        user: Seq<char>,
        task_id: Seq<char>,
        evidence: Seq<char>,
    ) -> TaskCompletionView {
        TaskCompletionView {
            id,
            status: TaskStatus::Registered,
            task_id,
            evidence,
            result: Seq::empty(),
            user,
        }
    }

    /// The same claim after verification with `result`; nothing else changes.
    pub open spec fn verified_with(self, result: Seq<char>) -> TaskCompletionView {
        TaskCompletionView { status: TaskStatus::Verified, result, ..self }
    }

    /// A claim that was not verified yet carries no result.
    pub open spec fn wf(self) -> bool {
        self.status == TaskStatus::Registered ==> self.result.len() == 0
    }
}

/// The mathematical values of a sequence of records, in the same order.
pub open spec fn record_views(records: Seq<TaskCompletion>) -> Seq<TaskCompletionView> {
    Seq::new(records.len(), |position: int| records[position]@)
}

impl View for TaskCompletion {
    type V = TaskCompletionView;

    open spec fn view(&self) -> TaskCompletionView {
        TaskCompletionView {
            id: self.id,
            status: self.status,
            task_id: self.task_id@,
            evidence: self.evidence@,
            result: self.result@,
            user: self.user@,
        }
    }
}

impl Clone for TaskCompletion {
    fn clone(&self) -> (copy: Self)
        ensures
            copy == *self,
    {
        TaskCompletion {
            id: self.id,
            status: self.status,
            task_id: self.task_id.clone(),
            evidence: self.evidence.clone(),
            result: self.result.clone(),
            user: self.user.clone(),
        }
    }
}

impl TaskCompletion {
    /// A fresh claim by `user` that `task_id` was completed, backed by
    /// `evidence`.
    pub fn registered(id: u64, user: String, task_id: String, evidence: String) -> (record: Self)
        ensures
            record@ == TaskCompletionView::registered(id, user@, task_id@, evidence@),
    {
        TaskCompletion {
            id,
            status: TaskStatus::Registered,
            task_id,
            evidence,
            result: String::new(),
            user,
        }
    }

    /// Accepts the claim: the status becomes `Verified` and `result` is
    /// recorded.
    pub fn verified_with(self, result: String) -> (record: Self)
        ensures
            record@ == self@.verified_with(result@),
    {
        TaskCompletion {
            id: self.id,
            status: TaskStatus::Verified,
            task_id: self.task_id,
            evidence: self.evidence,
            result,
            user: self.user,
        }
    }

    /// Whether the claim still awaits verification.
    pub fn is_registered(&self) -> (pending: bool)
        ensures
            pending == (self@.status == TaskStatus::Registered),
    {
        match self.status {
            TaskStatus::Registered => true,
            TaskStatus::Verified => false,
        }
    }
}

} // verus!
