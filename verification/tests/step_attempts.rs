use henry::agent::executor::{ReActExecutor, StepNext};
use henry::agent::types::{Step, StepStatus, StepType, TaskContext};
use henry::clock::new_uuid;
use henry::coding::session::new_session_id;
use henry::reactive::engine::{ReactiveConfig, ReactiveEngine};
use henry::reactive::policy::RemediationRule;
use henry::reactive::types::{ActionType, Anomaly, Severity, SystemEvent};

fn command_step() -> Step {
    Step::new(
        "s1".to_string(),
        "list files".to_string(),
        StepType::Command { command: "ls".to_string(), args: vec![], timeout_secs: 5 },
    )
}

fn context() -> TaskContext {
    TaskContext { variables: vec![], user_inputs: vec![], affected_files: vec![], errors: vec![] }
}

#[test]
fn a_step_stops_at_its_first_success() {
    let mut step = command_step();
    let mut ctx = context();
    ReActExecutor::begin_step(&mut step);
    let limit = 3;
    let first = ReActExecutor::first_attempt(limit);
    assert_eq!(first, StepNext::Attempt(0));
    let next = ReActExecutor::after_attempt(&mut step, &mut ctx, limit, 0, "t".to_string(), "a".to_string(), "boom".to_string(), false, 1);
    assert_eq!(next, StepNext::Attempt(1));
    let next = ReActExecutor::after_attempt(&mut step, &mut ctx, limit, 1, "t".to_string(), "a".to_string(), "fine".to_string(), true, 2);
    assert_eq!(next, StepNext::Done);
    assert_eq!(step.iterations.len(), 2);
    assert_eq!(step.status, StepStatus::Completed);
    assert_eq!(ctx.errors, vec!["boom".to_string()]);
}

#[test]
fn a_step_is_exhausted_after_its_limit_of_failures() {
    let mut step = command_step();
    let mut ctx = context();
    let limit = 2;
    let mut next = ReActExecutor::first_attempt(limit);
    let mut made = 0;
    while let StepNext::Attempt(i) = next {
        next = ReActExecutor::after_attempt(&mut step, &mut ctx, limit, i, "t".to_string(), "a".to_string(), format!("fail {}", i), false, 1);
        made += 1;
    }
    assert_eq!(next, StepNext::Exhausted);
    assert_eq!(made, 2);
    assert_eq!(ctx.errors, vec!["fail 0".to_string(), "fail 1".to_string()]);
    let err = ReActExecutor::fail_step(&mut step, limit);
    assert_eq!(step.status, StepStatus::Failed);
    assert_eq!(format!("{:?}", err), format!("{:?}", henry::agent::executor::ExecutorError::StepFailed("Step s1 failed after 2 iterations".to_string())));
}

#[test]
fn a_step_allowed_no_attempts_is_exhausted_at_once() {
    assert_eq!(ReActExecutor::first_attempt(0), StepNext::Exhausted);
}

#[test]
fn uuid_text_carries_version_and_variant() {
    for _ in 0..20 {
        let u = new_uuid();
        let b = u.as_bytes();
        assert_eq!(u.len(), 36);
        assert_eq!(b[8], b'-');
        assert_eq!(b[13], b'-');
        assert_eq!(b[18], b'-');
        assert_eq!(b[23], b'-');
        assert_eq!(b[14], b'4');
        assert!(matches!(b[19], b'8' | b'9' | b'a' | b'b'));
        assert!(u.chars().all(|c| c == '-' || c.is_ascii_digit() || ('a'..='f').contains(&c)));
    }
}

#[test]
fn session_ids_are_eight_hex_digits() {
    let a = new_session_id();
    let b = new_session_id();
    assert_eq!(a.len(), 8);
    assert!(a.chars().all(|c| c.is_ascii_digit() || ('a'..='f').contains(&c)));
    assert_ne!(a, b);
}

fn backed_up_update_config() -> ReactiveConfig {
    let mut config = ReactiveConfig::default();
    config.rules = vec![RemediationRule {
        name: "update_with_backup".to_string(),
        event_pattern: "update_available".to_string(),
        action: "notify_user".to_string(),
        min_severity: Severity::Info,
        requires_approval: false,
        cooldown_secs: 0,
        max_triggers_per_day: 10,
        pre_action: Some("backup_binary".to_string()),
        enabled: true,
    }];
    config
}

fn update_anomaly() -> Anomaly {
    Anomaly::new(SystemEvent::UpdateAvailable { current: "0.1.0".to_string(), latest: "0.2.0".to_string() })
}

// 2023-11-14 12:00 UTC, outside the default quiet hours.
const NOON: i64 = 1_699_963_680_000;

#[test]
fn backup_binary_pre_action_copies_the_executable() {
    let mut e = ReactiveEngine::new(backed_up_update_config());
    e.set_current_exe(Some("/usr/local/bin/henry".to_string()));
    e.handle_anomalies_at(vec![update_anomaly()], NOON);
    let copies: Vec<_> = e
        .get_actions()
        .into_iter()
        .filter(|a| matches!(&a.action_type, ActionType::RunCommand { command, .. } if command == "cp"))
        .collect();
    assert_eq!(copies.len(), 1);
    match &copies[0].action_type {
        ActionType::RunCommand { args, .. } => {
            assert_eq!(args[0], "-p");
            assert_eq!(args[1], "/usr/local/bin/henry");
            assert!(args[2].starts_with("/usr/local/bin/henry.backup."));
        }
        _ => unreachable!(),
    }
}

#[test]
fn no_backup_without_a_known_executable() {
    let mut e = ReactiveEngine::new(backed_up_update_config());
    e.handle_anomalies_at(vec![update_anomaly()], NOON);
    assert!(!e.get_actions().iter().any(|a| matches!(&a.action_type, ActionType::RunCommand { .. })));
}

#[test]
fn dispatch_waits_for_a_free_slot() {
    let mut config = ReactiveConfig::default();
    config.max_concurrent_actions = 0;
    let e = ReactiveEngine::new(config);
    assert!(!e.may_dispatch());
    let e = ReactiveEngine::new(ReactiveConfig::default());
    assert!(e.may_dispatch());
}
