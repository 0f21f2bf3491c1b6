use ocpp_rpc::tracker::{CorrelationTracker, TrackerError};

#[test]
fn a_registered_identifier_resolves_once() {
    let mut tracker = CorrelationTracker::new();
    assert_eq!(
        tracker.register("19223201".to_string(), "BootNotification".to_string()),
        Ok(())
    );
    assert!(tracker.is_pending("19223201"));
    assert_eq!(
        tracker.resolve_and_remove("19223201"),
        Some("BootNotification".to_string())
    );
    assert!(!tracker.is_pending("19223201"));
    assert_eq!(tracker.resolve_and_remove("19223201"), None);
}

#[test]
fn an_outstanding_identifier_cannot_be_registered_again() {
    let mut tracker = CorrelationTracker::new();
    assert_eq!(
        tracker.register("1".to_string(), "Heartbeat".to_string()),
        Ok(())
    );
    assert_eq!(
        tracker.register("1".to_string(), "Heartbeat".to_string()),
        Err(TrackerError::DuplicateMessageId)
    );
    assert_eq!(
        tracker.register("1".to_string(), "BootNotification".to_string()),
        Err(TrackerError::DuplicateMessageId)
    );
    // The first registration stands.
    assert_eq!(
        tracker.resolve_and_remove("1"),
        Some("Heartbeat".to_string())
    );
}

#[test]
fn a_resolved_identifier_can_be_registered_anew() {
    let mut tracker = CorrelationTracker::new();
    assert_eq!(tracker.register("1".to_string(), "A".to_string()), Ok(()));
    assert_eq!(tracker.resolve_and_remove("1"), Some("A".to_string()));
    assert_eq!(tracker.register("1".to_string(), "B".to_string()), Ok(()));
    assert_eq!(tracker.resolve_and_remove("1"), Some("B".to_string()));
}

#[test]
fn an_unknown_identifier_resolves_to_nothing() {
    let mut tracker = CorrelationTracker::new();
    assert!(!tracker.is_pending("x"));
    assert_eq!(tracker.resolve_and_remove("x"), None);
    assert_eq!(tracker.register("y".to_string(), "A".to_string()), Ok(()));
    assert_eq!(tracker.resolve_and_remove("x"), None);
    assert!(tracker.is_pending("y"));
}

#[test]
fn identifiers_are_kept_apart() {
    let mut tracker = CorrelationTracker::new();
    assert_eq!(tracker.register("1".to_string(), "A".to_string()), Ok(()));
    assert_eq!(tracker.register("2".to_string(), "B".to_string()), Ok(()));
    assert_eq!(tracker.register("3".to_string(), "C".to_string()), Ok(()));
    assert_eq!(tracker.resolve_and_remove("2"), Some("B".to_string()));
    assert!(tracker.is_pending("1"));
    assert!(!tracker.is_pending("2"));
    assert!(tracker.is_pending("3"));
    assert_eq!(tracker.resolve_and_remove("1"), Some("A".to_string()));
    assert_eq!(tracker.resolve_and_remove("3"), Some("C".to_string()));
    assert_eq!(tracker.resolve_and_remove("3"), None);
}
