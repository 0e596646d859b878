//! What holds of the registry across calls, proved over the views that the
//! operations' contracts are stated in.

use vstd::prelude::*;
use crate::contract::RegistryView;
use crate::error::RegistryError;
use crate::record::{TaskCompletionView, TaskStatus};

verus! {

/// The arguments of one registration.
pub struct Registration {
    pub caller: Seq<char>,
    pub task_id: Seq<char>,
    pub evidence: Seq<char>,
}

/// The registry after the registrations `calls` were made on `start`, first
/// to last.
pub open spec fn register_all(start: RegistryView, calls: Seq<Registration>) -> RegistryView
    decreases calls.len(),
{
    if calls.len() == 0 {
        start
    } else {
        register_all(start, calls.drop_last()).register(
            calls.last().caller,
            calls.last().task_id,
            calls.last().evidence,
        )
    }
}

/// Each registration adds one record and nothing else.
pub proof fn lemma_register_all_len(start: RegistryView, calls: Seq<Registration>)
    ensures
        register_all(start, calls).records.len() == start.records.len() + calls.len(),
        register_all(start, calls).config == start.config,
    decreases calls.len(),
{
    if calls.len() > 0 {
        lemma_register_all_len(start, calls.drop_last());
    }
}

/// In any sequence of registrations on a fresh registry, the first returns
/// the id 1 and each later one returns one more than the one before it: the
/// call at position `k`, counted from zero, returns `k + 1`.
pub proof fn law_ids_are_sequential(owner: Seq<char>, calls: Seq<Registration>, k: int)
    requires
        0 <= k < calls.len(),
    ensures
        register_all(RegistryView::initial(owner), calls.take(k)).next_id() == k + 1,
{
    lemma_register_all_len(RegistryView::initial(owner), calls.take(k));
}

/// From any state, consecutive registrations return consecutive ids: the
/// id returned after `calls` exceeds the id that would have been returned
/// before them by the number of calls.
pub proof fn law_ids_increase_by_one(start: RegistryView, calls: Seq<Registration>)
    ensures
        register_all(start, calls).next_id() == start.next_id() + calls.len(),
{
    lemma_register_all_len(start, calls);
}

/// Right after a registration returned `id`, the record `id` exists, is
/// `Registered`, has an empty result, and holds what was submitted.
pub proof fn law_registered_record_is_pending(
    before: RegistryView,
    caller: Seq<char>,
    task_id: Seq<char>,
    evidence: Seq<char>,
)
    requires
        before.wf(),
        before.next_id() < u64::MAX,
    ensures
        ({
            let id = before.next_id() as u64;
            let after = before.register(caller, task_id, evidence);
            &&& after.wf()
            &&& after.contains(id)
            &&& after.record(id).status == TaskStatus::Registered
            &&& after.record(id).result.len() == 0
            &&& after.record(id) == TaskCompletionView::registered(id, caller, task_id, evidence)
        }),
{
}

/// A registration leaves every earlier record as it was.
pub proof fn law_register_keeps_history(
    before: RegistryView,
    caller: Seq<char>,
    task_id: Seq<char>,
    evidence: Seq<char>,
    id: u64,
)
    requires
        before.contains(id),
    ensures
        before.register(caller, task_id, evidence).contains(id),
        before.register(caller, task_id, evidence).record(id) == before.record(id),
{
}

/// A successful verification leaves the record `Verified` with the given
/// result, and the registry well formed.
pub proof fn law_verified_record_holds_result(
    before: RegistryView,
    caller: Seq<char>,
    id: u64,
    result: Seq<char>,
)
    requires
        before.wf(),
        before.verify_gate(caller, id).is_ok(),
    ensures
        ({
            let after = before.verify(id, result);
            &&& after.wf()
            &&& after.records.len() == before.records.len()
            &&& after.record(id) == before.record(id).verified_with(result)
            &&& after.record(id).status == TaskStatus::Verified
            &&& after.record(id).result == result
        }),
{
}

/// A verification touches the one record only: every other record stays as
/// it was, and none is removed.
pub proof fn law_verify_keeps_other_records(
    before: RegistryView,
    id: u64,
    result: Seq<char>,
    other: u64,
)
    requires
        before.contains(id),
        before.contains(other),
        other != id,
    ensures
        before.verify(id, result).contains(other),
        before.verify(id, result).record(other) == before.record(other),
{
}

/// `after` continues `before`: no record is gone, what was submitted with a
/// record is unchanged, and a record that was `Verified` is still the same.
pub open spec fn continues(before: RegistryView, after: RegistryView) -> bool {
    &&& before.records.len() <= after.records.len()
    &&& forall|id: u64| #[trigger]
        before.contains(id) ==> {
            let earlier = before.record(id);
            let later = after.record(id);
            &&& later.id == earlier.id
            &&& later.task_id == earlier.task_id
            &&& later.evidence == earlier.evidence
            &&& later.user == earlier.user
            &&& earlier.status == TaskStatus::Verified ==> later == earlier
            &&& later.status == TaskStatus::Registered ==> later == earlier
        }
}

/// Every operation continues the history: records are never removed or
/// reordered, their submitted fields never change, and a status moves from
/// `Registered` to `Verified` only, never back.
pub proof fn law_operations_continue_history(
    before: RegistryView,
    caller: Seq<char>,
    name: Seq<char>,
    task_id: Seq<char>,
    evidence: Seq<char>,
    id: u64,
    result: Seq<char>,
)
    ensures
        continues(before, before.register(caller, task_id, evidence)),
        before.verify_gate(caller, id).is_ok() ==> continues(before, before.verify(id, result)),
        continues(before, before.set_owner(name)),
        continues(before, before.set_verifier(name)),
{
}

/// Continuation carries over any number of operations.
pub proof fn law_continuation_is_transitive(
    first: RegistryView,
    second: RegistryView,
    third: RegistryView,
)
    requires
        continues(first, second),
        continues(second, third),
    ensures
        continues(first, third),
{
    assert forall|id: u64| #[trigger] first.contains(id) implies {
        let earlier = first.record(id);
        let later = third.record(id);
        &&& later.id == earlier.id
        &&& later.task_id == earlier.task_id
        &&& later.evidence == earlier.evidence
        &&& later.user == earlier.user
        &&& earlier.status == TaskStatus::Verified ==> later == earlier
        &&& later.status == TaskStatus::Registered ==> later == earlier
    } by {
        assert(second.contains(id));
    }
}

/// Verification is not repeatable. After a verification of `id` that
/// succeeded, a second one by a caller who passes the verifier gate is
/// rejected with `InvalidState`, and the record keeps the first result.
pub proof fn law_second_verification_is_rejected(
    before: RegistryView,
    caller: Seq<char>,
    id: u64,
    result: Seq<char>,
    second_caller: Seq<char>,
)
    requires
        before.wf(),
        before.verify_gate(caller, id).is_ok(),
        before.config.permits_verifier(second_caller),
    ensures
        ({
            let after = before.verify(id, result);
            &&& after.verify_gate(second_caller, id) == Err::<(), RegistryError>(
                RegistryError::InvalidState,
            )
            &&& after.record(id).result == result
        }),
{
}

/// `Verified` is terminal: whoever calls, a verified record is never
/// verified again.
pub proof fn law_verified_is_terminal(state: RegistryView, caller: Seq<char>, id: u64)
    requires
        state.contains(id),
        state.record(id).status == TaskStatus::Verified,
    ensures
        state.verify_gate(caller, id).is_err(),
{
}

/// For a caller who passes the verifier gate, verifying an id that no
/// record carries is rejected with `NotFound`.
pub proof fn law_unknown_id_is_not_found(state: RegistryView, caller: Seq<char>, id: u64)
    requires
        state.config.permits_verifier(caller),
        !state.contains(id),
    ensures
        state.verify_gate(caller, id) == Err::<(), RegistryError>(RegistryError::NotFound),
{
}

/// Verification succeeds only for the configured verifier or, while none is
/// configured, for the owner. Every other caller is rejected with
/// `PermissionDenied`, whatever the id.
pub proof fn law_only_the_verifier_verifies(state: RegistryView, caller: Seq<char>, id: u64)
    ensures
        state.config.permits_verifier(caller) <==> match state.config.verifier {
            Some(verifier) => caller == verifier,
            None => caller == state.config.owner,
        },
        state.verify_gate(caller, id).is_ok() ==> state.config.permits_verifier(caller),
        !state.config.permits_verifier(caller) ==> state.verify_gate(caller, id) == Err::<
            (),
            RegistryError,
        >(RegistryError::PermissionDenied),
{
}

/// Configuration changes take effect at once: after a verifier other than
/// the owner was set, the owner no longer passes the verifier gate, and the
/// new verifier does.
pub proof fn law_verifier_replaces_owner(state: RegistryView, verifier: Seq<char>)
    requires
        verifier != state.config.owner,
    ensures
        state.set_verifier(verifier).config.permits_verifier(verifier),
        !state.set_verifier(verifier).config.permits_verifier(state.config.owner),
{
}

/// The latest-records query on `n` records returns exactly `min(limit, n)`
/// of them: the last ones of the history, in the history's order.
pub proof fn law_latest_is_the_tail(state: RegistryView, limit: nat)
    ensures
        ({
            let n = state.records.len();
            let latest = state.latest(limit);
            &&& latest.len() == if limit < n {
                limit
            } else {
                n
            }
            &&& forall|j: int|
                0 <= j < latest.len() ==> latest[j] == state.records[n - latest.len() + j]
        }),
{
}

/// The page query returns nothing at an offset at or past the end, and else
/// the records from the offset up to `from_index + limit` or the end,
/// whichever comes first.
pub proof fn law_page_is_a_slice(state: RegistryView, from_index: nat, limit: nat)
    ensures
        ({
            let n = state.records.len();
            let page = state.page(from_index, limit);
            let end = if from_index + limit < n {
                from_index + limit
            } else {
                n
            };
            &&& from_index >= n ==> page.len() == 0
            &&& from_index < n ==> page == state.records.subrange(from_index as int, end as int)
        }),
{
}

/// One page from offset zero that is as long as the history is the whole
/// history, in assignment order.
pub proof fn law_full_page_is_the_history(state: RegistryView)
    ensures
        state.page(0, state.records.len()) == state.records,
{
    assert(state.page(0, state.records.len()) =~= state.records);
}

/// Consecutive pages put together give the longer page: paging skips and
/// repeats nothing.
pub proof fn law_pages_concatenate(state: RegistryView, from_index: nat, first: nat, second: nat)
    ensures
        state.page(from_index, first) + state.page(from_index + first, second) == state.page(
            from_index,
            first + second,
        ),
{
    assert(state.page(from_index, first) + state.page(from_index + first, second) =~= state.page(
        from_index,
        first + second,
    ));
}

/// Pages stay valid while the registry grows: a registration does not
/// change what a page showed, as far as the page was full or ended before
/// the new record.
pub proof fn law_pages_are_stable(
    before: RegistryView,
    caller: Seq<char>,
    task_id: Seq<char>,
    evidence: Seq<char>,
    from_index: nat,
    limit: nat,
)
    requires
        from_index + limit <= before.records.len(),
    ensures
        before.register(caller, task_id, evidence).page(from_index, limit) == before.page(
            from_index,
            limit,
        ),
{
    assert(before.register(caller, task_id, evidence).page(from_index, limit) =~= before.page(
        from_index,
        limit,
    ));
}

} // verus!
