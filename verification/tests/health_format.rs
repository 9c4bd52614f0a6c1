use henry::health::{format_bytes, format_duration};

#[test]
fn test_format_bytes() {
    assert_eq!(format_bytes(500), "500B");
    assert_eq!(format_bytes(1500), "1.5KB");
    assert_eq!(format_bytes(1_500_000), "1.4MB");
    assert_eq!(format_bytes(1_500_000_000), "1.4GB");
}

#[test]
fn test_format_duration() {
    assert_eq!(format_duration(30), "30s");
    assert_eq!(format_duration(90), "1m");
    assert_eq!(format_duration(3700), "1h 1m");
    assert_eq!(format_duration(90000), "1d 1h");
}

use henry::health::{HealthManager, HealthStatus, ModuleHealth};

#[test]
fn test_module_health() {
    let mut manager = HealthManager::new("0.1.0");

    manager.register_module("test", true);
    manager.update_module(ModuleHealth::new("test").healthy());

    let health = manager.get_module("test").unwrap();
    assert_eq!(health.status, HealthStatus::Healthy);
}

#[test]
fn test_overall_status() {
    let mut manager = HealthManager::new("0.1.0");

    manager.register_module("mod1", true);
    manager.register_module("mod2", true);

    manager.update_module(ModuleHealth::new("mod1").healthy());
    manager.update_module(ModuleHealth::new("mod2").degraded("slow"));

    let modules = manager.get_all_modules();
    let status = HealthManager::calculate_overall_status(&modules);
    assert_eq!(status, HealthStatus::Degraded);
}
