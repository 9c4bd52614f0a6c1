use henry::maint::backup::format_backup_size;
use henry::maint::types::{JobStatus, JobType};
use henry::maint::update::{is_newer_version, UpdateCheckerConfig};

#[test]
fn test_format_backup_size() {
    assert_eq!(format_backup_size(500), "500 B");
    assert_eq!(format_backup_size(1024), "1.00 KB");
    assert_eq!(format_backup_size(1024 * 1024), "1.00 MB");
    assert_eq!(format_backup_size(1024 * 1024 * 1024), "1.00 GB");
}

#[test]
fn test_job_type_display() {
    assert_eq!(JobType::Backup.to_string(), "backup");
    assert_eq!(JobType::LogRotation.to_string(), "log_rotation");
    assert_eq!(JobType::UpdateCheck.to_string(), "update_check");
}

#[test]
fn test_job_status_display() {
    assert_eq!(JobStatus::Success.to_string(), "success");
    assert_eq!(JobStatus::Running.to_string(), "running");
    assert_eq!(JobStatus::Failed("test error".to_string()).to_string(), "failed: test error");
}

#[test]
fn test_is_newer_version() {
    assert!(is_newer_version("0.1.0", "0.1.1"));
    assert!(is_newer_version("0.1.0", "0.2.0"));
    assert!(is_newer_version("0.1.0", "1.0.0"));
    assert!(!is_newer_version("0.1.0", "0.1.0"));
    assert!(!is_newer_version("0.2.0", "0.1.0"));
    assert!(!is_newer_version("1.0.0", "0.9.9"));
}

#[test]
fn test_is_newer_version_with_v_prefix() {
    assert!(is_newer_version("v0.1.0", "v0.1.1"));
    assert!(is_newer_version("0.1.0", "v0.2.0"));
    assert!(is_newer_version("v0.1.0", "0.2.0"));
}

#[test]
fn test_is_newer_version_with_prerelease() {
    assert!(is_newer_version("0.1.0-beta", "0.1.1"));
    assert!(is_newer_version("0.1.0", "0.1.1-beta"));
}

#[test]
fn test_update_checker_config_default() {
    let config = UpdateCheckerConfig::default();
    assert!(config.github_repo.is_some());
    assert!(!config.current_version.is_empty());
}
