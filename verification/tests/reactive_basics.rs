use henry::reactive::observer::ObserverState;
use henry::reactive::types::Severity;

#[test]
fn test_observer_state_cooldown() {
    let mut state = ObserverState::default();

    assert!(!state.recently_detected("test", 60));

    state.record_detection("test");
    assert!(state.recently_detected("test", 60));
}

#[test]
fn test_severity_ordering() {
    assert!(Severity::Info < Severity::Warning);
    assert!(Severity::Warning < Severity::Critical);
    assert!(Severity::Critical < Severity::Emergency);
}
