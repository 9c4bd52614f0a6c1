//! Types of the maintenance module.

use vstd::prelude::*;
use crate::maint::update::package_version;
use crate::text::owned;

verus! {

/// Full maintenance module status.
#[derive(Debug)]
pub struct MaintStatus {
    pub enabled: bool,
    pub scheduled_jobs: usize,
    /// Last backup (milliseconds since the epoch).
    pub last_backup: Option<i64>,
    pub next_backup: Option<i64>,
    pub last_log_rotation: Option<i64>,
    pub last_update_check: Option<i64>,
    /// Available update version (if any).
    pub available_update: Option<String>,
    pub current_version: String,
    pub backup_dir: String,
    pub backups_retained: usize,
    /// Total backup size in bytes.
    pub total_backup_size: u64,
}

impl Default for MaintStatus {
    fn default() -> (r: MaintStatus)
        ensures
            !r.enabled,
            r.scheduled_jobs == 0,
            r.last_backup is None && r.next_backup is None && r.last_log_rotation is None && r.last_update_check is None,
            r.available_update is None,
            r.current_version@ == "0.1.0"@,
            r.backup_dir@.len() == 0,
            r.backups_retained == 0,
            r.total_backup_size == 0,
    {
        MaintStatus {
            enabled: false,
            scheduled_jobs: 0,
            last_backup: None,
            next_backup: None,
            last_log_rotation: None,
            last_update_check: None,
            available_update: None,
            current_version: owned(package_version()),
            backup_dir: String::new(),
            backups_retained: 0,
            total_backup_size: 0,
        }
    }
}

/// Information about a backup.
#[derive(Debug)]
pub struct BackupInfo {
    /// Backup file name.
    pub name: String,
    /// Full path to the backup file.
    pub path: String,
    /// When the backup was made (milliseconds since the epoch).
    pub created_at: i64,
    /// Size in bytes.
    pub size: u64,
    /// Whether the backup is compressed.
    pub compressed: bool,
}

/// Types of maintenance jobs.
#[derive(Clone, Copy, Debug, PartialEq, Eq, Structural)]
pub enum JobType {
    Backup,
    LogRotation,
    UpdateCheck,
    SessionCleanup,
    CacheCleanup,
}

/// The snake-case name of a job type.
pub open spec fn job_type_name(t: JobType) -> Seq<char> {
    match t {
        JobType::Backup => "backup"@,
        JobType::LogRotation => "log_rotation"@,
        JobType::UpdateCheck => "update_check"@,
        JobType::SessionCleanup => "session_cleanup"@,
        JobType::CacheCleanup => "cache_cleanup"@,
    }
}

impl JobType {
    /// The job type's name (what `Display` prints).
    pub fn to_string(&self) -> (r: String)
        ensures
            r@ == job_type_name(*self),
    {
        match self {
            JobType::Backup => owned("backup"),
            JobType::LogRotation => owned("log_rotation"),
            JobType::UpdateCheck => owned("update_check"),
            JobType::SessionCleanup => owned("session_cleanup"),
            JobType::CacheCleanup => owned("cache_cleanup"),
        }
    }
}

/// Status of a job execution.
#[derive(Debug)]
pub enum JobStatus {
    Success,
    Failed(String),
    Skipped,
    Running,
}

/// What `Display` prints for a job status.
pub open spec fn job_status_text(s: JobStatus) -> Seq<char> {
    match s {
        JobStatus::Success => "success"@,
        JobStatus::Failed(m) => "failed: "@ + m@,
        JobStatus::Skipped => "skipped"@,
        JobStatus::Running => "running"@,
    }
}

impl JobStatus {
    /// The status text.
    pub fn to_string(&self) -> (r: String)
        ensures
            r@ == job_status_text(*self),
    {
        match self {
            JobStatus::Success => owned("success"),
            JobStatus::Failed(m) => owned("failed: ").concat(m.as_str()),
            JobStatus::Skipped => owned("skipped"),
            JobStatus::Running => owned("running"),
        }
    }

    /// A copy of the status.
    pub fn duplicate(&self) -> (r: JobStatus)
        ensures
            r == *self,
    {
        match self {
            JobStatus::Success => JobStatus::Success,
            JobStatus::Failed(m) => JobStatus::Failed(m.clone()),
            JobStatus::Skipped => JobStatus::Skipped,
            JobStatus::Running => JobStatus::Running,
        }
    }
}

/// A scheduled maintenance job.
#[derive(Debug)]
pub struct ScheduledJob {
    pub name: String,
    /// Cron expression.
    pub cron: String,
    pub job_type: JobType,
    pub enabled: bool,
    /// Next run (milliseconds since the epoch).
    pub next_run: Option<i64>,
    /// Last run (milliseconds since the epoch).
    pub last_run: Option<i64>,
    pub last_status: Option<JobStatus>,
}

/// Result of an update check.
#[derive(Debug)]
pub struct UpdateInfo {
    pub current_version: String,
    pub latest_version: String,
    pub update_available: bool,
    /// Release notes URL (if available).
    pub release_url: Option<String>,
    /// When the check was performed (milliseconds since the epoch).
    pub checked_at: i64,
}

} // verus!
