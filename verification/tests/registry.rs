use task_completion::{RegistryError, TaskCompletion, TaskCompletionContract, TaskStatus};

fn name(text: &str) -> String {
    text.to_string()
}

fn fresh() -> TaskCompletionContract {
    TaskCompletionContract::new(name("owner.near"))
}

fn with_records(count: u64) -> TaskCompletionContract {
    let mut registry = fresh();
    for round in 1..=count {
        registry.register(name("user.near"), format!("task-{}", round), format!("proof-{}", round));
    }
    registry
}

#[test]
fn new_registry_has_owner_and_nothing_else() {
    let registry = fresh();
    assert_eq!(registry.get_owner(), "owner.near");
    assert_eq!(registry.get_verifier(), None);
    assert_eq!(registry.next_id(), 1);
    assert!(registry.get_task_completion(1).is_none());
    assert!(registry.get_latest_task_completions(10).is_empty());
    assert!(registry.get_task_completions_page(0, 10).is_empty());
}

#[test]
fn register_returns_ids_from_one_in_steps_of_one() {
    let mut registry = fresh();
    let mut returned = Vec::new();
    for round in 0..7 {
        assert_eq!(registry.next_id(), round + 1);
        returned.push(registry.register(name("user.near"), name("task"), name("proof")));
    }
    assert_eq!(returned, vec![1, 2, 3, 4, 5, 6, 7]);
    assert_eq!(registry.next_id(), 8);
}

#[test]
fn register_is_open_to_any_caller_and_records_the_submitter() {
    let mut registry = fresh();
    let first = registry.register(name("stranger.near"), name("t"), name("e"));
    let second = registry.register(name("owner.near"), name("t"), name("e"));
    assert_eq!(registry.get_task_completion(first).unwrap().user, "stranger.near");
    assert_eq!(registry.get_task_completion(second).unwrap().user, "owner.near");
}

#[test]
fn registered_record_is_pending_with_empty_result() {
    let mut registry = with_records(3);
    let id = registry.register(name("dana.near"), name("build"), name("log"));
    assert_eq!(id, 4);
    assert_eq!(
        registry.get_task_completion(id),
        Some(TaskCompletion {
            id: 4,
            status: TaskStatus::Registered,
            task_id: name("build"),
            evidence: name("log"),
            result: String::new(),
            user: name("dana.near"),
        })
    );
}

#[test]
fn same_task_may_be_registered_twice() {
    let mut registry = fresh();
    let first = registry.register(name("user.near"), name("same"), name("e1"));
    let second = registry.register(name("user.near"), name("same"), name("e2"));
    assert_ne!(first, second);
    assert_eq!(registry.get_task_completion(first).unwrap().evidence, "e1");
    assert_eq!(registry.get_task_completion(second).unwrap().evidence, "e2");
}

#[test]
fn get_task_completion_answers_none_outside_assigned_ids() {
    let registry = with_records(3);
    assert!(registry.get_task_completion(0).is_none());
    assert!(registry.get_task_completion(4).is_none());
    assert!(registry.get_task_completion(u64::MAX).is_none());
    assert_eq!(registry.get_task_completion(3).unwrap().task_id, "task-3");
}

#[test]
fn verify_changes_status_and_result_only() {
    let mut registry = with_records(3);
    let owner = name("owner.near");
    let before = registry.get_task_completions_page(0, 3);
    assert_eq!(registry.verify(&owner, 2, name("accepted")), Ok(2));
    let after = registry.get_task_completions_page(0, 3);
    assert_eq!(after[0], before[0]);
    assert_eq!(after[2], before[2]);
    assert_eq!(
        after[1],
        TaskCompletion {
            id: 2,
            status: TaskStatus::Verified,
            task_id: name("task-2"),
            evidence: name("proof-2"),
            result: name("accepted"),
            user: name("user.near"),
        }
    );
    assert_eq!(registry.next_id(), 4);
}

#[test]
fn second_verify_fails_and_keeps_first_result() {
    let mut registry = with_records(2);
    let owner = name("owner.near");
    assert_eq!(registry.verify(&owner, 1, name("first")), Ok(1));
    assert_eq!(registry.verify(&owner, 1, name("second")), Err(RegistryError::InvalidState));
    let record = registry.get_task_completion(1).unwrap();
    assert_eq!(record.status, TaskStatus::Verified);
    assert_eq!(record.result, "first");
}

#[test]
fn verify_with_empty_result_is_still_terminal() {
    let mut registry = with_records(1);
    let owner = name("owner.near");
    assert_eq!(registry.verify(&owner, 1, String::new()), Ok(1));
    assert_eq!(registry.get_task_completion(1).unwrap().status, TaskStatus::Verified);
    assert_eq!(registry.verify(&owner, 1, name("late")), Err(RegistryError::InvalidState));
    assert_eq!(registry.get_task_completion(1).unwrap().result, "");
}

#[test]
fn verify_unknown_id_is_not_found_and_changes_nothing() {
    let mut registry = with_records(2);
    let owner = name("owner.near");
    let before = registry.get_task_completions_page(0, 10);
    assert_eq!(registry.verify(&owner, 3, name("ok")), Err(RegistryError::NotFound));
    assert_eq!(registry.verify(&owner, 0, name("ok")), Err(RegistryError::NotFound));
    assert_eq!(registry.verify(&owner, u64::MAX, name("ok")), Err(RegistryError::NotFound));
    assert_eq!(registry.get_task_completions_page(0, 10), before);
    assert_eq!(registry.next_id(), 3);
    assert_eq!(registry.get_owner(), "owner.near");
    assert_eq!(registry.get_verifier(), None);
}

#[test]
fn verify_on_empty_registry_is_not_found() {
    let mut registry = fresh();
    assert_eq!(registry.verify(&name("owner.near"), 1, name("ok")), Err(RegistryError::NotFound));
}

#[test]
fn verify_by_stranger_is_denied_before_anything_else() {
    let mut registry = with_records(1);
    let stranger = name("stranger.near");
    let owner = name("owner.near");
    // The caller is checked first: also for an unknown id, also for a verified record.
    assert_eq!(registry.verify(&stranger, 1, name("x")), Err(RegistryError::PermissionDenied));
    assert_eq!(registry.verify(&stranger, 9, name("x")), Err(RegistryError::PermissionDenied));
    assert_eq!(registry.verify(&owner, 1, name("ok")), Ok(1));
    assert_eq!(registry.verify(&stranger, 1, name("x")), Err(RegistryError::PermissionDenied));
    assert_eq!(registry.get_task_completion(1).unwrap().result, "ok");
}

#[test]
fn submitter_cannot_verify_own_claim() {
    let mut registry = fresh();
    let submitter = name("user.near");
    let id = registry.register(submitter.clone(), name("t"), name("e"));
    assert_eq!(registry.verify(&submitter, id, name("ok")), Err(RegistryError::PermissionDenied));
    assert_eq!(registry.get_task_completion(id).unwrap().status, TaskStatus::Registered);
}

#[test]
fn owner_that_is_also_verifier_keeps_verifying() {
    let mut registry = with_records(1);
    let owner = name("owner.near");
    assert_eq!(registry.set_verifier(&owner, owner.clone()), Ok(()));
    assert_eq!(registry.verify(&owner, 1, name("ok")), Ok(1));
}

#[test]
fn set_verifier_twice_replaces_the_verifier() {
    let mut registry = with_records(2);
    let owner = name("owner.near");
    let first = name("v1.near");
    let second = name("v2.near");
    assert_eq!(registry.set_verifier(&owner, first.clone()), Ok(()));
    assert_eq!(registry.set_verifier(&owner, second.clone()), Ok(()));
    assert_eq!(registry.get_verifier(), Some(second.clone()));
    assert_eq!(registry.verify(&first, 1, name("ok")), Err(RegistryError::PermissionDenied));
    assert_eq!(registry.verify(&second, 1, name("ok")), Ok(1));
}

#[test]
fn set_verifier_by_non_owner_is_denied() {
    let mut registry = fresh();
    let stranger = name("stranger.near");
    assert_eq!(
        registry.set_verifier(&stranger, stranger.clone()),
        Err(RegistryError::PermissionDenied)
    );
    assert_eq!(registry.get_verifier(), None);
}

#[test]
fn verifier_may_not_change_configuration() {
    let mut registry = fresh();
    let owner = name("owner.near");
    let verifier = name("verifier.near");
    assert_eq!(registry.set_verifier(&owner, verifier.clone()), Ok(()));
    assert_eq!(
        registry.set_owner(&verifier, verifier.clone()),
        Err(RegistryError::PermissionDenied)
    );
    assert_eq!(
        registry.set_verifier(&verifier, name("other.near")),
        Err(RegistryError::PermissionDenied)
    );
    assert_eq!(registry.get_owner(), "owner.near");
    assert_eq!(registry.get_verifier(), Some(verifier));
}

#[test]
fn set_owner_hands_over_all_owner_rights() {
    let mut registry = with_records(1);
    let old_owner = name("owner.near");
    let new_owner = name("heir.near");
    assert_eq!(registry.set_owner(&new_owner, new_owner.clone()), Err(RegistryError::PermissionDenied));
    assert_eq!(registry.get_owner(), "owner.near");
    assert_eq!(registry.set_owner(&old_owner, new_owner.clone()), Ok(()));
    assert_eq!(registry.get_owner(), "heir.near");
    assert_eq!(
        registry.set_owner(&old_owner, old_owner.clone()),
        Err(RegistryError::PermissionDenied)
    );
    // No verifier is configured, so the new owner verifies and the old one does not.
    assert_eq!(registry.verify(&old_owner, 1, name("x")), Err(RegistryError::PermissionDenied));
    assert_eq!(registry.verify(&new_owner, 1, name("ok")), Ok(1));
}

#[test]
fn set_owner_to_same_owner_is_accepted() {
    let mut registry = fresh();
    let owner = name("owner.near");
    assert_eq!(registry.set_owner(&owner, owner.clone()), Ok(()));
    assert_eq!(registry.get_owner(), "owner.near");
}

#[test]
fn set_owner_keeps_verifier_and_records() {
    let mut registry = with_records(2);
    let owner = name("owner.near");
    let verifier = name("verifier.near");
    assert_eq!(registry.set_verifier(&owner, verifier.clone()), Ok(()));
    let before = registry.get_task_completions_page(0, 10);
    assert_eq!(registry.set_owner(&owner, name("heir.near")), Ok(()));
    assert_eq!(registry.get_verifier(), Some(verifier));
    assert_eq!(registry.get_task_completions_page(0, 10), before);
    assert_eq!(registry.next_id(), 3);
}
