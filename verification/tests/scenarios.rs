use task_completion::{RegistryError, TaskCompletion, TaskCompletionContract, TaskStatus};

fn name(text: &str) -> String {
    text.to_string()
}

fn ids(records: &[TaskCompletion]) -> Vec<u64> {
    records.iter().map(|record| record.id).collect()
}

#[test]
fn register_then_verify_by_owner() {
    let alice = name("alice.near");
    let bob = name("bob.near");
    let mut registry = TaskCompletionContract::new(alice.clone());

    let id = registry.register(bob.clone(), name("t1"), name("ev1"));
    assert_eq!(id, 1);

    let pending = registry.get_task_completion(1).unwrap();
    assert_eq!(pending.status, TaskStatus::Registered);
    assert_eq!(pending.result, "");
    assert_eq!(pending.task_id, "t1");
    assert_eq!(pending.evidence, "ev1");
    assert_eq!(pending.user, "bob.near");
    assert_eq!(pending.id, 1);

    assert_eq!(registry.verify(&alice, 1, name("ok")), Ok(1));

    let verified = registry.get_task_completion(1).unwrap();
    assert_eq!(
        verified,
        TaskCompletion {
            id: 1,
            status: TaskStatus::Verified,
            task_id: name("t1"),
            evidence: name("ev1"),
            result: name("ok"),
            user: bob,
        }
    );
}

#[test]
fn configured_verifier_replaces_owner() {
    let alice = name("alice.near");
    let bob = name("bob.near");
    let carol = name("carol.near");
    let mut registry = TaskCompletionContract::new(alice.clone());
    assert_eq!(registry.register(bob, name("t1"), name("ev1")), 1);

    assert_eq!(registry.set_verifier(&alice, carol.clone()), Ok(()));
    assert_eq!(registry.get_verifier(), Some(carol.clone()));

    assert_eq!(registry.verify(&alice, 1, name("ok")), Err(RegistryError::PermissionDenied));
    assert_eq!(registry.get_task_completion(1).unwrap().status, TaskStatus::Registered);

    assert_eq!(registry.verify(&carol, 1, name("ok")), Ok(1));
    let verified = registry.get_task_completion(1).unwrap();
    assert_eq!(verified.status, TaskStatus::Verified);
    assert_eq!(verified.result, "ok");
}

#[test]
fn five_registrations_latest_two_and_second_page() {
    let mut registry = TaskCompletionContract::new(name("alice.near"));
    for round in 1..=5u64 {
        let id = registry.register(name("bob.near"), format!("t{}", round), format!("ev{}", round));
        assert_eq!(id, round);
    }
    assert_eq!(ids(&registry.get_latest_task_completions(2)), vec![4, 5]);
    assert_eq!(ids(&registry.get_task_completions_page(1, 2)), vec![2, 3]);
}
