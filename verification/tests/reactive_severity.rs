use henry::clock::{new_uuid, now_millis};
use henry::float32::Float32;
use henry::reactive::action::{verification_for, verification_holds, Verification};
use henry::reactive::policy::RemediationPolicy;
use henry::reactive::types::{ActionType, Anomaly, NotifyUrgency, Severity, SystemEvent};
use henry::server::types::{ContainerInfo, ContainerStatus};

fn disk(bits: u32) -> SystemEvent {
    SystemEvent::DiskSpaceLow { mount_point: "/".to_string(), percent: Float32::from_bits(bits), available_bytes: 1 }
}

#[test]
fn usage_severity_is_warning_or_critical() {
    // 97.0, 90.0 and 80.0 as f32 bit patterns.
    assert_eq!(disk(0x42C2_0000).default_severity(), Severity::Critical);
    assert_eq!(disk(0x42B4_0000).default_severity(), Severity::Critical);
    assert_eq!(disk(0x42A0_0000).default_severity(), Severity::Warning);
    let mem = SystemEvent::MemoryPressure { percent: Float32::from_bits(0x42C6_0000), used_bytes: 99, total_bytes: 100 };
    assert_eq!(mem.default_severity(), Severity::Critical);
}

#[test]
fn update_available_suggests_a_notification() {
    let event = SystemEvent::UpdateAvailable { current: "0.1.0".to_string(), latest: "0.2.0".to_string() };
    let actions = Anomaly::suggest_actions(&event);
    assert_eq!(actions.len(), 1);
    match &actions[0] {
        ActionType::NotifyUser { message, urgency } => {
            assert_eq!(message, "Update available: 0.1.0 -> 0.2.0");
            assert_eq!(*urgency, NotifyUrgency::Low);
        }
        other => panic!("unexpected suggestion {:?}", other),
    }
    let anomaly = Anomaly::new(event);
    assert!(anomaly.suggested_actions.iter().any(|a| matches!(a, ActionType::NotifyUser { .. })));
}

#[test]
fn default_update_rule_notifies() {
    let rules = RemediationPolicy::default_rules();
    assert_eq!(rules[2].event_pattern, "update_available");
    assert_eq!(rules[2].action, "notify_user");
    assert!(rules[2].pre_action.is_none());
}

#[test]
fn clock_and_identifiers() {
    let now = now_millis();
    assert!(now > 1_600_000_000_000);
    let a = new_uuid();
    let b = new_uuid();
    assert_eq!(a.len(), 36);
    assert_eq!(&a[14..15], "4");
    assert_ne!(a, b);
}

fn container(name: &str, status: ContainerStatus) -> ContainerInfo {
    ContainerInfo {
        id: "abc".to_string(),
        name: name.to_string(),
        image: "img".to_string(),
        status,
        status_message: String::new(),
        ports: Vec::new(),
        created: 0,
    }
}

#[test]
fn verification_choices() {
    let restart = ActionType::RestartContainer { name: "web".to_string() };
    assert!(matches!(verification_for(false, &restart), Verification::NotNeeded));
    assert!(matches!(verification_for(true, &ActionType::RotateLogs), Verification::AfterDelay));
    let v = verification_for(true, &restart);
    assert!(matches!(&v, Verification::ContainerRunning(n) if n == "web"));
    let up = vec![container("web", ContainerStatus::Running)];
    let down = vec![container("web", ContainerStatus::Exited)];
    assert!(verification_holds(&v, Some(&up)));
    assert!(!verification_holds(&v, Some(&down)));
    assert!(!verification_holds(&v, None));
    assert!(verification_holds(&Verification::AfterDelay, None));
    assert!(!verification_holds(&Verification::NotNeeded, Some(&up)));
}
