//! The maintenance manager: which jobs the configuration schedules, what a backup
//! contains, when each task last ran, and the module's status.

use vstd::prelude::*;
use crate::clock::{format_stamp_minute, in_range, stamp_minute};
use crate::config::{join_path, path_join, MaintConfig};
use crate::maint::backup::{backup_error_text, size_sum, BackupError, BackupManager};
use crate::maint::logs::{log_rotation_error_text, LogRotationError, LogRotator};
use crate::maint::scheduler::{scheduler_error_text, SchedulerError};
use crate::maint::types::{BackupInfo, JobStatus, JobType, MaintStatus, ScheduledJob, UpdateInfo};
use crate::maint::update::{package_version, update_error_text, UpdateCheckerConfig, UpdateError};
use crate::text::{clone_opt_string, owned};

verus! {

/// Errors of the maintenance module.
#[derive(Debug)]
pub enum MaintError {
    Backup(BackupError),
    LogRotation(LogRotationError),
    Scheduler(SchedulerError),
    Update(UpdateError),
    NotConfigured,
}

/// The message of a maintenance error, as `Display` renders it.
pub open spec fn maint_error_text(e: MaintError) -> Seq<char> {
    match e {
        MaintError::Backup(b) => "backup error: "@ + backup_error_text(b),
        MaintError::LogRotation(l) => "log rotation error: "@ + log_rotation_error_text(l),
        MaintError::Scheduler(s) => "scheduler error: "@ + scheduler_error_text(s),
        MaintError::Update(u) => "update check error: "@ + update_error_text(u),
        MaintError::NotConfigured => "module not configured"@,
    }
}

impl MaintError {
    /// The error's message.
    pub fn message(&self) -> (r: String)
        ensures
            r@ == maint_error_text(*self),
    {
        match self {
            MaintError::Backup(b) => owned("backup error: ").concat(b.message().as_str()),
            MaintError::LogRotation(l) => owned("log rotation error: ").concat(l.message().as_str()),
            MaintError::Scheduler(s) => owned("scheduler error: ").concat(s.message().as_str()),
            MaintError::Update(u) => owned("update check error: ").concat(u.message().as_str()),
            MaintError::NotConfigured => owned("module not configured"),
        }
    }
}

/// A job the configuration asks to schedule.
#[derive(Debug)]
pub struct JobPlan {
    pub name: String,
    pub cron: String,
    pub job_type: JobType,
}

/// `p` schedules the named job of the given type on the given cron line.
pub open spec fn plans(p: JobPlan, name: Seq<char>, cron: Seq<char>, t: JobType) -> bool {
    p.name@ == name && p.cron@ == cron && p.job_type == t
}

/// Maintenance manager.
pub struct MaintenanceManager {
    config: MaintConfig,
    backup_manager: BackupManager,
    log_rotator: LogRotator,
    update_checker: UpdateCheckerConfig,
    last_backup: Option<i64>,
    last_log_rotation: Option<i64>,
    last_update_check: Option<i64>,
    available_update: Option<String>,
}

impl MaintenanceManager {
    /// The configuration.
    pub closed spec fn config_of(self) -> MaintConfig {
        self.config
    }

    /// When the last backup was made.
    pub closed spec fn last_backup_at(self) -> Option<i64> {
        self.last_backup
    }

    /// When logs were last rotated.
    pub closed spec fn last_rotation_at(self) -> Option<i64> {
        self.last_log_rotation
    }

    /// When updates were last checked.
    pub closed spec fn last_check_at(self) -> Option<i64> {
        self.last_update_check
    }

    /// The newer version found, if any.
    pub closed spec fn update_found(self) -> Option<String> {
        self.available_update
    }

    /// The backup manager.
    pub closed spec fn backups_of(self) -> BackupManager {
        self.backup_manager
    }

    /// The log rotator.
    pub closed spec fn rotator_of(self) -> LogRotator {
        self.log_rotator
    }

    /// The update checker's settings.
    pub closed spec fn checker_of(self) -> UpdateCheckerConfig {
        self.update_checker
    }

    /// A manager for the configuration; nothing has run yet.
    pub fn new(config: MaintConfig) -> (r: MaintenanceManager)
        ensures
            r.config_of() == config,
            r.last_backup_at() is None,
            r.last_rotation_at() is None,
            r.last_check_at() is None,
            r.update_found() is None,
            r.backups_of().dir() == config.backup_dir@,
            r.backups_of().keep() == config.max_backups,
            r.rotator_of().dir() == config.log_dir@,
            r.rotator_of().keep() == config.max_log_files,
            r.rotator_of().size_limit() == config.max_log_size,
            r.rotator_of().compresses(),
            r.checker_of().github_repo == config.github_repo,
            r.checker_of().current_version@ == "0.1.0"@,
    {
        let backup_manager = BackupManager::new(config.backup_dir.as_str(), config.max_backups);
        let log_rotator = LogRotator::new(config.log_dir.as_str(), config.max_log_files, config.max_log_size);
        let update_checker = UpdateCheckerConfig {
            github_repo: clone_opt_string(&config.github_repo),
            current_version: owned(package_version()),
        };
        MaintenanceManager {
            config,
            backup_manager,
            log_rotator,
            update_checker,
            last_backup: None,
            last_log_rotation: None,
            last_update_check: None,
            available_update: None,
        }
    }

    /// The jobs to schedule: none when maintenance is off; otherwise the backup,
    /// log rotation and update check jobs that are enabled, in that order.
    pub fn planned_jobs(&self) -> (r: Vec<JobPlan>)
        ensures
            ({
                let c = self.config_of();
                let n = if !c.enabled { 0int } else {
                    (if c.backup_enabled { 1int } else { 0int }) + (if c.log_rotation_enabled { 1int } else { 0int })
                        + (if c.update_check_enabled { 1int } else { 0int })
                };
                &&& r@.len() == n
                &&& c.enabled && c.backup_enabled ==> plans(r@[0], "backup"@, c.backup_cron@, JobType::Backup)
                &&& c.enabled && c.log_rotation_enabled ==> plans(r@[if c.backup_enabled { 1int } else { 0int }],
                    "log_rotation"@, c.log_rotation_cron@, JobType::LogRotation)
                &&& c.enabled && c.update_check_enabled ==> plans(r@[n - 1], "update_check"@, c.update_check_cron@, JobType::UpdateCheck)
            }),
    {
        let mut v: Vec<JobPlan> = Vec::new();
        if !self.config.enabled {
            return v;
        }
        if self.config.backup_enabled {
            v.push(JobPlan { name: owned("backup"), cron: self.config.backup_cron.clone(), job_type: JobType::Backup });
        }
        if self.config.log_rotation_enabled {
            v.push(JobPlan { name: owned("log_rotation"), cron: self.config.log_rotation_cron.clone(), job_type: JobType::LogRotation });
        }
        if self.config.update_check_enabled {
            v.push(JobPlan { name: owned("update_check"), cron: self.config.update_check_cron.clone(), job_type: JobType::UpdateCheck });
        }
        v
    }

    /// The files a backup archives: the state database and the configuration file.
    pub fn backup_sources(&self) -> (r: Vec<String>)
        ensures
            r@.len() == 2,
            r@[0]@ == path_join(path_join(self.config_of().data_dir@, "state"@), "henry.db"@),
            r@[1]@ == path_join(self.config_of().data_dir@, "config.toml"@),
    {
        let state = join_path(self.config.data_dir.as_str(), "state");
        let mut v: Vec<String> = Vec::new();
        v.push(join_path(state.as_str(), "henry.db"));
        v.push(join_path(self.config.data_dir.as_str(), "config.toml"));
        v
    }

    /// The backup manager.
    pub fn backup_manager(&self) -> (r: &BackupManager)
        ensures
            *r == self.backups_of(),
    {
        &self.backup_manager
    }

    /// The log rotator.
    pub fn log_rotator(&self) -> (r: &LogRotator)
        ensures
            *r == self.rotator_of(),
    {
        &self.log_rotator
    }

    /// The update checker's settings.
    pub fn update_checker(&self) -> (r: &UpdateCheckerConfig)
        ensures
            *r == self.checker_of(),
    {
        &self.update_checker
    }

    /// Notes a backup made at `now`.
    pub fn record_backup_at(&mut self, now: i64)
        ensures
            final(self).last_backup_at() == Some(now),
            final(self).last_rotation_at() == old(self).last_rotation_at(),
            final(self).last_check_at() == old(self).last_check_at(),
            final(self).update_found() == old(self).update_found(),
            final(self).config_of() == old(self).config_of(),
            final(self).backups_of() == old(self).backups_of(),
            final(self).rotator_of() == old(self).rotator_of(),
            final(self).checker_of() == old(self).checker_of(),
    {
        self.last_backup = Some(now);
    }

    /// Notes a log rotation at `now`.
    pub fn record_rotation_at(&mut self, now: i64)
        ensures
            final(self).last_rotation_at() == Some(now),
            final(self).last_backup_at() == old(self).last_backup_at(),
            final(self).last_check_at() == old(self).last_check_at(),
            final(self).update_found() == old(self).update_found(),
            final(self).config_of() == old(self).config_of(),
            final(self).backups_of() == old(self).backups_of(),
            final(self).rotator_of() == old(self).rotator_of(),
            final(self).checker_of() == old(self).checker_of(),
    {
        self.last_log_rotation = Some(now);
    }

    /// Notes an update check at `now`, remembering the newer version found.
    pub fn record_update_check_at(&mut self, info: &UpdateInfo, now: i64)
        ensures
            final(self).last_check_at() == Some(now),
            info.update_available ==> final(self).update_found() == Some(info.latest_version),
            !info.update_available ==> final(self).update_found() == old(self).update_found(),
            final(self).last_backup_at() == old(self).last_backup_at(),
            final(self).last_rotation_at() == old(self).last_rotation_at(),
            final(self).config_of() == old(self).config_of(),
            final(self).backups_of() == old(self).backups_of(),
            final(self).rotator_of() == old(self).rotator_of(),
            final(self).checker_of() == old(self).checker_of(),
    {
        self.last_update_check = Some(now);
        if info.update_available {
            self.available_update = Some(info.latest_version.clone());
        }
    }

    /// The module's status, given the backups found and the number of scheduled jobs.
    pub fn status(&self, backups: &Vec<BackupInfo>, scheduled_jobs: usize) -> (r: MaintStatus)
        requires
            size_sum(backups@) <= u64::MAX,
        ensures
            r.enabled == self.config_of().enabled,
            r.scheduled_jobs == scheduled_jobs,
            r.last_backup == self.last_backup_at(),
            r.next_backup is None,
            r.last_log_rotation == self.last_rotation_at(),
            r.last_update_check == self.last_check_at(),
            r.available_update == self.update_found(),
            r.current_version@ == "0.1.0"@,
            r.backup_dir@ == self.config_of().backup_dir@,
            r.backups_retained == backups@.len(),
            r.total_backup_size == size_sum(backups@),
    {
        MaintStatus {
            enabled: self.config.enabled,
            scheduled_jobs,
            last_backup: self.last_backup,
            next_backup: None,
            last_log_rotation: self.last_log_rotation,
            last_update_check: self.last_update_check,
            available_update: clone_opt_string(&self.available_update),
            current_version: owned(package_version()),
            backup_dir: self.config.backup_dir.clone(),
            backups_retained: backups.len(),
            total_backup_size: BackupManager::total_backup_size(backups),
        }
    }

    /// The configuration.
    pub fn config(&self) -> (r: &MaintConfig)
        ensures
            *r == self.config_of(),
    {
        &self.config
    }
}

/// The short code of a job's last status.
pub open spec fn status_code(s: Option<JobStatus>) -> Seq<char> {
    match s {
        Some(JobStatus::Success) => "OK"@,
        Some(JobStatus::Failed(_)) => "ERR"@,
        Some(JobStatus::Skipped) => "SKIP"@,
        Some(JobStatus::Running) => "RUN"@,
        None => "--"@,
    }
}

/// `format_job`: status code, name, cron line and last run.
pub open spec fn format_job_spec(job: ScheduledJob) -> Seq<char> {
    status_code(job.last_status) + " "@ + job.name@ + " ["@ + job.cron@ + "] last: "@
        + match job.last_run { Some(t) => stamp_minute(t as int), None => "never"@ }
}

/// Formats a scheduled job for display.
pub fn format_job(job: &ScheduledJob) -> (r: String)
    requires
        job.last_run matches Some(t) ==> in_range(t as int),
    ensures
        r@ == format_job_spec(*job),
{
    let status = match &job.last_status {
        Some(JobStatus::Success) => "OK",
        Some(JobStatus::Failed(_)) => "ERR",
        Some(JobStatus::Skipped) => "SKIP",
        Some(JobStatus::Running) => "RUN",
        None => "--",
    };
    let last_run = match job.last_run {
        Some(t) => format_stamp_minute(t),
        None => owned("never"),
    };
    owned(status).concat(" ").concat(job.name.as_str()).concat(" [").concat(job.cron.as_str()).concat("] last: ").concat(last_run.as_str())
}

} // verus!
