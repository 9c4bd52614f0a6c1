use henry::config::MaintConfig;
use henry::maint::backup::BackupManager;
use henry::maint::logs::LogRotator;
use henry::maint::manager::{format_job, MaintenanceManager};
use henry::maint::scheduler::{JobMetadata, MaintScheduler};
use henry::maint::types::{JobStatus, JobType, MaintStatus, ScheduledJob};
use henry::maint::update::{UpdateChecker, UpdateCheckerConfig};

fn test_config(dir: &str) -> MaintConfig {
    MaintConfig {
        enabled: true,
        backup_enabled: true,
        backup_cron: "0 0 3 * * *".to_string(),
        backup_dir: format!("{}/backups", dir),
        max_backups: 5,
        log_rotation_enabled: true,
        log_rotation_cron: "0 0 0 * * *".to_string(),
        log_dir: format!("{}/logs", dir),
        max_log_files: 10,
        max_log_size: 10 * 1024 * 1024,
        update_check_enabled: false,
        update_check_cron: "0 0 12 * * *".to_string(),
        github_repo: None,
        data_dir: dir.to_string(),
    }
}

#[test]
fn test_backup_manager_creation() {
    let manager = BackupManager::new("/tmp/henry-test/backups", 5);
    assert_eq!(manager.max_backups(), 5);
}

#[test]
fn test_maintenance_manager_creation() {
    let config = test_config("/tmp/henry-test");
    let manager = MaintenanceManager::new(test_config("/tmp/henry-test"));
    assert_eq!(manager.config().backup_dir, config.backup_dir);
}

#[test]
fn test_status() {
    let manager = MaintenanceManager::new(test_config("/tmp/henry-test"));
    let status = manager.status(&Vec::new(), 0);
    assert!(status.enabled);
    assert_eq!(status.scheduled_jobs, 0);
    assert!(status.last_backup.is_none());
}

#[test]
fn test_format_job() {
    let job = ScheduledJob {
        name: "backup".to_string(),
        cron: "0 0 3 * * *".to_string(),
        job_type: JobType::Backup,
        enabled: true,
        next_run: None,
        last_run: None,
        last_status: Some(JobStatus::Success),
    };

    let formatted = format_job(&job);
    assert!(formatted.contains("OK"));
    assert!(formatted.contains("backup"));
    assert!(formatted.contains("0 0 3 * * *"));
}

#[test]
fn test_log_rotator_creation() {
    let rotator = LogRotator::new("/tmp/henry-test/logs", 5, 1024 * 1024);
    assert_eq!(rotator.max_log_files(), 5);
    assert_eq!(rotator.max_log_size(), 1024 * 1024);
}

#[test]
fn test_scheduler_creation() {
    let scheduler = MaintScheduler::new();
    assert!(!scheduler.is_running());
    assert_eq!(scheduler.job_count(), 0);
}

#[test]
fn test_add_job() {
    let mut scheduler = MaintScheduler::new();
    scheduler.add_job("job-1".to_string(), "test_job", "0 0 * * * *", JobType::Backup);

    assert_eq!(scheduler.job_count(), 1);

    let jobs = scheduler.list_jobs();
    assert_eq!(jobs.len(), 1);
    assert_eq!(jobs[0].name, "test_job");
    assert_eq!(jobs[0].job_type, JobType::Backup);
}

#[test]
fn test_remove_job() {
    let mut scheduler = MaintScheduler::new();
    scheduler.add_job("job-1".to_string(), "test_job", "0 0 * * * *", JobType::Backup);

    assert_eq!(scheduler.job_count(), 1);

    assert!(scheduler.remove_job("job-1"));
    assert_eq!(scheduler.job_count(), 0);
}

#[test]
fn test_job_metadata() {
    let meta = JobMetadata {
        name: "test".to_string(),
        cron: "0 0 * * * *".to_string(),
        job_type: JobType::Backup,
        enabled: true,
        last_run: None,
        last_status: None,
    };

    assert_eq!(meta.name, "test");
    assert!(meta.enabled);
}

#[test]
fn test_maint_status_default() {
    let status = MaintStatus::default();
    assert!(!status.enabled);
    assert_eq!(status.scheduled_jobs, 0);
    assert!(status.last_backup.is_none());
}

#[test]
fn test_update_checker_creation() {
    let config = UpdateCheckerConfig::default();
    let checker = UpdateChecker::new(config);
    assert!(!checker.current_version().is_empty());
}

#[test]
fn update_checker_endpoint_and_agent() {
    let checker = UpdateChecker::new(UpdateCheckerConfig::default());
    assert_eq!(checker.user_agent(), "henry/0.1.0");
    assert_eq!(
        checker.release_endpoint().unwrap(),
        "https://api.github.com/repos/specbug/henry/releases/latest"
    );
    let disabled = UpdateChecker::new(UpdateCheckerConfig { github_repo: None, current_version: "0.1.0".to_string() });
    assert!(disabled.release_endpoint().is_err());
    let info = checker.info_at(Some(("v0.2.0", "https://example.com/r")), 1_700_000_000_000);
    assert!(info.update_available);
    assert_eq!(info.latest_version, "0.2.0");
}

use henry::maint::scheduler::next_run_time_at;

#[test]
fn cron_next_run() {
    // 2024-01-01T00:30:00Z; the next full hour follows.
    assert_eq!(next_run_time_at("0 0 * * * *", 1_704_069_000_000), Some(1_704_070_800_000));
    assert_eq!(next_run_time_at("not a cron", 1_704_069_000_000), None);
}
