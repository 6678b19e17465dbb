use linka_core::error::ClientError;
use linka_core::registry::{Completion, PendingRegistry};

fn sorted(mut completions: Vec<(String, Completion<u32>)>) -> Vec<(String, u32, ClientError)> {
    completions.sort_by(|a, b| a.0.cmp(&b.0));
    completions
        .into_iter()
        .map(|(id, completion)| (id, completion.slot, completion.outcome.unwrap_err()))
        .collect()
}

#[test]
fn new_registry_is_empty() {
    let registry: PendingRegistry<u32> = PendingRegistry::new();
    assert!(registry.is_empty());
    assert_eq!(registry.len(), 0);
    assert!(!registry.contains("a"));
    assert_eq!(registry.deadline_of("a"), None);
}

#[test]
fn register_enters_a_request() {
    let mut registry = PendingRegistry::new();
    assert_eq!(registry.register("a".to_string(), 50, 7u32), Ok(()));
    assert!(registry.contains("a"));
    assert_eq!(registry.len(), 1);
    assert_eq!(registry.deadline_of("a"), Some(50));
}

#[test]
fn register_refuses_an_id_in_flight() {
    let mut registry = PendingRegistry::new();
    assert_eq!(registry.register("a".to_string(), 50, 7u32), Ok(()));
    assert_eq!(registry.register("a".to_string(), 60, 8u32), Err(8));
    assert_eq!(registry.len(), 1);
    assert_eq!(registry.deadline_of("a"), Some(50));
    assert_eq!(registry.resolve("a"), Some(7));
}

#[test]
fn resolve_hands_the_slot_out_once() {
    let mut registry = PendingRegistry::new();
    registry.register("a".to_string(), 50, 7u32).unwrap();
    registry.register("b".to_string(), 50, 8u32).unwrap();
    assert_eq!(registry.resolve("a"), Some(7));
    assert_eq!(registry.resolve("a"), None);
    assert!(registry.contains("b"));
    assert_eq!(registry.len(), 1);
    assert_eq!(registry.resolve("zzz"), None);
    assert_eq!(registry.len(), 1);
}

#[test]
fn an_id_can_be_used_again_once_resolved() {
    let mut registry = PendingRegistry::new();
    registry.register("a".to_string(), 50, 7u32).unwrap();
    registry.resolve("a");
    assert_eq!(registry.register("a".to_string(), 70, 9u32), Ok(()));
    assert_eq!(registry.deadline_of("a"), Some(70));
}

#[test]
fn expire_takes_exactly_the_due_requests() {
    let mut registry = PendingRegistry::new();
    registry.register("a".to_string(), 10, 1u32).unwrap();
    registry.register("b".to_string(), 20, 2u32).unwrap();
    registry.register("c".to_string(), 30, 3u32).unwrap();
    registry.register("d".to_string(), 20, 4u32).unwrap();
    let expired = sorted(registry.expire(20));
    assert_eq!(
        expired,
        vec![
            ("a".to_string(), 1, ClientError::Timeout),
            ("b".to_string(), 2, ClientError::Timeout),
            ("d".to_string(), 4, ClientError::Timeout),
        ]
    );
    assert_eq!(registry.len(), 1);
    assert!(registry.contains("c"));
    assert_eq!(registry.deadline_of("c"), Some(30));
}

#[test]
fn expire_before_any_deadline_takes_nothing() {
    let mut registry = PendingRegistry::new();
    registry.register("a".to_string(), 10, 1u32).unwrap();
    assert!(registry.expire(9).is_empty());
    assert!(registry.contains("a"));
}

#[test]
fn expire_at_the_deadline_takes_the_request() {
    let mut registry = PendingRegistry::new();
    registry.register("a".to_string(), 10, 1u32).unwrap();
    assert_eq!(sorted(registry.expire(10)), vec![("a".to_string(), 1, ClientError::Timeout)]);
    assert!(registry.is_empty());
    assert!(registry.expire(11).is_empty());
}

#[test]
fn drain_takes_every_request() {
    let mut registry = PendingRegistry::new();
    registry.register("a".to_string(), 10, 1u32).unwrap();
    registry.register("b".to_string(), u64::MAX, 2u32).unwrap();
    registry.register("c".to_string(), 0, 3u32).unwrap();
    let drained = sorted(registry.drain());
    assert_eq!(
        drained,
        vec![
            ("a".to_string(), 1, ClientError::ConnectionLost),
            ("b".to_string(), 2, ClientError::ConnectionLost),
            ("c".to_string(), 3, ClientError::ConnectionLost),
        ]
    );
    assert!(registry.is_empty());
    assert!(registry.drain().is_empty());
}
