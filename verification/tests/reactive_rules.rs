use henry::reactive::decision::DecisionEngine;
use henry::reactive::policy::RemediationPolicy;
use henry::reactive::types::{Action, ActionStatus, ActionType, Anomaly, ControlLoopState, Severity, SystemEvent};

fn crashed(name: &str) -> SystemEvent {
    SystemEvent::ContainerCrashed { name: name.to_string(), exit_code: Some(1) }
}

#[test]
fn test_decision_engine_basic() {
    let policy = RemediationPolicy::default();
    let mut engine = DecisionEngine::new(policy);
    let loop_state = ControlLoopState::default();

    let anomaly = Anomaly::new(crashed("test"));

    let decision = engine.evaluate(anomaly, &loop_state, 20);
    assert!(decision.handled);
    assert!(!decision.actions.is_empty());
}

#[test]
fn test_rate_limit() {
    let policy = RemediationPolicy::default();
    let mut engine = DecisionEngine::new(policy);
    let mut loop_state = ControlLoopState::default();

    for _ in 0..20 {
        loop_state.record_action();
    }

    let anomaly = Anomaly::new(crashed("test"));

    let decision = engine.evaluate(anomaly, &loop_state, 20);
    assert!(decision.reason.contains("rate limit"));
}

#[test]
fn test_concurrent_limit() {
    let policy = RemediationPolicy::default();
    let mut engine = DecisionEngine::new(policy);
    engine.set_max_concurrent_actions(3);
    engine.set_executing_count(3);

    let loop_state = ControlLoopState::default();
    let anomaly = Anomaly::new(crashed("test"));

    let decision = engine.evaluate(anomaly, &loop_state, 20);
    assert!(!decision.handled);
    assert!(decision.reason.contains("concurrent"));
}

#[test]
fn test_rule_matching() {
    let policy = RemediationPolicy::default();
    let event = crashed("test");

    let rule = policy.find_matching_rule(&event, Severity::Critical);
    assert!(rule.is_some());
    assert_eq!(rule.unwrap().name, "container_crash_restart");
}

#[test]
fn test_cooldown() {
    let mut policy = RemediationPolicy::default();
    let event = crashed("test");

    let rule = policy.find_matching_rule(&event, Severity::Critical);
    assert!(rule.is_some());

    policy.record_trigger("container_crash_restart");

    let rule = policy.find_matching_rule(&event, Severity::Critical);
    assert!(rule.is_none());
}

#[test]
fn test_command_blocklist() {
    let policy = RemediationPolicy::default();
    assert!(policy.is_command_blocked("rm -rf /"));
    assert!(policy.is_command_blocked("RM -RF /home"));
    assert!(!policy.is_command_blocked("ls -la"));
}

#[test]
fn test_quiet_hours() {
    let mut policy = RemediationPolicy::default();
    policy.set_quiet_hours(2, 6);
    assert_eq!(policy.quiet_hours(), (2, 6));
}

#[test]
fn test_action_from_rule() {
    let policy = RemediationPolicy::default();
    let rule = &policy.rules()[0];
    let event = crashed("nginx");

    let action = policy.action_from_rule(rule, &event);
    assert!(action.is_some());
    match action.unwrap() {
        ActionType::RestartContainer { name } => assert_eq!(name, "nginx"),
        _ => panic!("Wrong action type"),
    }
}

#[test]
fn test_system_event_type() {
    let event = crashed("test");
    assert_eq!(event.event_type(), "container_crashed");
}

#[test]
fn test_anomaly_creation() {
    let anomaly = Anomaly::new(crashed("test"));
    assert_eq!(anomaly.severity, Severity::Critical);
    assert!(!anomaly.is_resolved());
    assert!(!anomaly.suggested_actions.is_empty());
}

#[test]
fn test_action_lifecycle() {
    let mut action = Action::new("anomaly-1", ActionType::RotateLogs, true);
    assert_eq!(action.status, ActionStatus::AwaitingApproval);

    action.approve("user");
    assert_eq!(action.status, ActionStatus::Pending);
    assert!(action.approved_by.is_some());

    action.start_execution();
    assert_eq!(action.status, ActionStatus::Executing);

    action.complete("Success");
    assert_eq!(action.status, ActionStatus::Completed);
}

#[test]
fn test_action_retry() {
    let mut action = Action::new("anomaly-1", ActionType::RotateLogs, false);
    action.fail("Error 1");
    assert!(action.can_retry());

    action.retry();
    assert_eq!(action.status, ActionStatus::Pending);
}

#[test]
fn test_control_loop_rate_limit() {
    let mut state = ControlLoopState::default();
    assert!(state.can_execute_action(20));

    for _ in 0..20 {
        state.record_action();
    }
    assert!(!state.can_execute_action(20));
}

use henry::float32::Float32;
use henry::reactive::action::{notify_outcome, ActionExecutor, ExecutorError};
use henry::reactive::observer::{AnomalyObserver, ObserverThresholds};

#[test]
fn test_observer_creation() {
    let thresholds = ObserverThresholds::default();
    let observer = AnomalyObserver::new(thresholds);

    assert_eq!(observer.thresholds().disk_warning_percent.bits, 80.0f32.to_bits());
}

#[test]
fn test_record_service_unreachable() {
    let thresholds = ObserverThresholds::default();
    let mut observer = AnomalyObserver::new(thresholds);

    let anomaly = observer.record_service_unreachable("test", "http://localhost", "connection refused");
    assert!(anomaly.is_some());

    let anomaly = observer.record_service_unreachable("test", "http://localhost", "connection refused");
    assert!(anomaly.is_none());
}

#[test]
fn test_blocked_command() {
    let executor = ActionExecutor::new();
    let result = executor.check_command("rm", &vec!["-rf".to_string(), "/".to_string()]);
    assert!(matches!(result, Err(ExecutorError::CommandBlocked(_))));
}

#[test]
fn test_notify_without_callback() {
    let result = notify_outcome("test message", false);
    assert!(result.contains("logged"));
}

#[test]
fn test_execute_simple_command() {
    let executor = ActionExecutor::new();
    let result = executor.check_command("echo", &vec!["hello".to_string()]);
    assert!(result.is_ok());
}

#[test]
fn float_threshold_bits_match_f32() {
    let t = ObserverThresholds::default();
    assert_eq!(f32::from_bits(t.memory_warning_percent.bits), 85.0);
    assert_eq!(Float32::from_bits(0x42A0_0000).format_1dp(), "80.0");
}
