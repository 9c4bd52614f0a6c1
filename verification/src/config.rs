//! Daemon configuration: every section with its defaults, and the checks a loaded
//! configuration must pass.
//!
//! Reading the file, decoding TOML and watching for changes are the caller's.

use vstd::prelude::*;
use crate::float32::Float32;
use crate::text::{ends_with_seq, owned, starts_with, starts_with_seq};

verus! {

/// `base.join(part)` for Unix paths: an absolute `part` replaces `base`; otherwise
/// the two are joined with one `/`.
pub open spec fn path_join(base: Seq<char>, part: Seq<char>) -> Seq<char> {
    if part.len() > 0 && part[0] == '/' {
        part
    } else if base.len() == 0 {
        part
    } else if base.last() == '/' {
        base + part
    } else {
        base + seq!['/'] + part
    }
}

/// Joins a path and a relative or absolute part, as `Path::join` does.
pub fn join_path(base: &str, part: &str) -> (r: String)
    ensures
        r@ == path_join(base@, part@),
{
    let pv = crate::text::chars_of(part);
    if pv.len() > 0 && pv[0] == '/' {
        return owned(part);
    }
    let bv = crate::text::chars_of(base);
    if bv.len() == 0 {
        owned(part)
    } else if bv[bv.len() - 1] == '/' {
        owned(base).concat(part)
    } else {
        let r = owned(base).concat("/").concat(part);
        proof { reveal_strlit("/"); }
        assert(r@ =~= base@ + seq!['/'] + part@);
        r
    }
}

/// The home directory used for default paths: the given one, or `.`.
pub open spec fn home_or_dot(home: Option<Seq<char>>) -> Seq<char> {
    match home {
        Some(h) => h,
        None => "."@,
    }
}

fn home_dir_or_dot(home: Option<&str>) -> (r: String)
    ensures
        r@ == home_or_dot(match home { Some(h) => Some(h@), None => None }),
{
    match home {
        Some(h) => owned(h),
        None => owned("."),
    }
}

/// Errors of configuration handling.
#[derive(Debug)]
pub enum ConfigError {
    /// The file could not be read (its path and the system's message).
    Io { path: String, message: String },
    /// The file could not be decoded (its path and the decoder's message).
    Parse { path: String, message: String },
    /// A value is out of bounds.
    Validation(String),
    /// The configuration could not be encoded (the encoder's message).
    Serialize(String),
    /// The file could not be watched (the watcher's message).
    Watch(String),
}

/// The message of a configuration error, as `Display` renders it.
pub open spec fn config_error_text(e: ConfigError) -> Seq<char> {
    match e {
        ConfigError::Io { path, message } => "failed to read config file "@ + path@ + ": "@ + message@,
        ConfigError::Parse { path, message } => "failed to parse config file "@ + path@ + ": "@ + message@,
        ConfigError::Validation(m) => "configuration validation failed: "@ + m@,
        ConfigError::Serialize(m) => "failed to serialize config: "@ + m@,
        ConfigError::Watch(m) => "failed to watch config file: "@ + m@,
    }
}

impl ConfigError {
    /// The error's message.
    pub fn message(&self) -> (r: String)
        ensures
            r@ == config_error_text(*self),
    {
        match self {
            ConfigError::Io { path, message } => owned("failed to read config file ").concat(path.as_str()).concat(": ").concat(message.as_str()),
            ConfigError::Parse { path, message } => owned("failed to parse config file ").concat(path.as_str()).concat(": ").concat(message.as_str()),
            ConfigError::Validation(m) => owned("configuration validation failed: ").concat(m.as_str()),
            ConfigError::Serialize(m) => owned("failed to serialize config: ").concat(m.as_str()),
            ConfigError::Watch(m) => owned("failed to watch config file: ").concat(m.as_str()),
        }
    }
}

/// General daemon settings.
#[derive(Debug)]
pub struct DaemonConfig {
    /// Data directory for runtime files.
    pub data_dir: String,
    /// PID file location.
    pub pid_file: String,
    /// Lock port for single-instance detection.
    pub lock_port: u16,
}

impl DaemonConfig {
    /// The defaults under a home directory (`.` when unknown): data in `~/.henry`,
    /// the PID file in it, lock port 18790.
    pub fn default_in(home: Option<&str>) -> (r: DaemonConfig)
        ensures
            ({
                let h = home_or_dot(match home { Some(h) => Some(h@), None => None });
                &&& r.data_dir@ == path_join(h, ".henry"@)
                &&& r.pid_file@ == path_join(path_join(h, ".henry"@), "henry.pid"@)
                &&& r.lock_port == 18790
            }),
    {
        let h = home_dir_or_dot(home);
        let data_dir = join_path(h.as_str(), ".henry");
        DaemonConfig { pid_file: join_path(data_dir.as_str(), "henry.pid"), data_dir, lock_port: 18790 }
    }
}

/// Tailscale settings.
#[derive(Debug)]
pub struct TailscaleConfig {
    pub enabled: bool,
    pub hostname: String,
    pub serve_https: bool,
}

impl Default for TailscaleConfig {
    fn default() -> (r: TailscaleConfig)
        ensures
            !r.enabled,
            r.hostname@ == "henry"@,
            r.serve_https,
    {
        TailscaleConfig { enabled: false, hostname: owned("henry"), serve_https: true }
    }
}

/// Network binding settings.
#[derive(Debug)]
pub struct NetworkConfig {
    /// Address to bind services to.
    pub bind_address: String,
    /// Static IP for documentation and health checks.
    pub static_ip: Option<String>,
    /// Tailscale settings.
    pub tailscale: TailscaleConfig,
}

impl Default for NetworkConfig {
    fn default() -> (r: NetworkConfig)
        ensures
            r.bind_address@ == "0.0.0.0"@,
            r.static_ip is None,
            !r.tailscale.enabled,
            r.tailscale.hostname@ == "henry"@,
            r.tailscale.serve_https,
    {
        NetworkConfig { bind_address: owned("0.0.0.0"), static_ip: None, tailscale: TailscaleConfig::default() }
    }
}

/// Telegram bot settings.
#[derive(Debug)]
pub struct TelegramConfig {
    pub enabled: bool,
    /// Secret reference for the bot token.
    pub token_ref: String,
    /// Allowed user IDs.
    pub allowed_users: Vec<i64>,
    /// Allowed usernames.
    pub allowed_usernames: Vec<String>,
}

impl Default for TelegramConfig {
    fn default() -> (r: TelegramConfig)
        ensures
            !r.enabled,
            r.token_ref@ == "op://Private/Henry Telegram Bot/credential"@,
            r.allowed_users@.len() == 0,
            r.allowed_usernames@.len() == 0,
    {
        TelegramConfig {
            enabled: false,
            token_ref: owned("op://Private/Henry Telegram Bot/credential"),
            allowed_users: Vec::new(),
            allowed_usernames: Vec::new(),
        }
    }
}

/// HTTP API settings.
#[derive(Debug)]
pub struct HttpConfig {
    pub enabled: bool,
    pub port: u16,
    /// Secret reference for the API token.
    pub token_ref: Option<String>,
}

impl Default for HttpConfig {
    fn default() -> (r: HttpConfig)
        ensures
            r.enabled,
            r.port == 18791,
            r.token_ref is None,
    {
        HttpConfig { enabled: true, port: 18791, token_ref: None }
    }
}

/// Container management settings.
#[derive(Debug)]
pub struct ContainerConfig {
    pub enabled: bool,
    /// Use Podman instead of Docker.
    pub use_podman: bool,
    /// Socket path (detected when absent).
    pub socket_path: Option<String>,
    /// Containers that may be managed (empty: all).
    pub allowed_containers: Vec<String>,
}

impl Default for ContainerConfig {
    fn default() -> (r: ContainerConfig)
        ensures
            r.enabled,
            r.use_podman,
            r.socket_path is None,
            r.allowed_containers@.len() == 0,
    {
        ContainerConfig { enabled: true, use_podman: true, socket_path: None, allowed_containers: Vec::new() }
    }
}

/// Media server settings.
#[derive(Debug)]
pub struct MediaConfig {
    pub enabled: bool,
    /// Media library paths.
    pub library_paths: Vec<String>,
    /// Jellyfin container name.
    pub jellyfin_container: String,
    /// Jellyfin server URL.
    pub jellyfin_url: String,
    /// Secret reference for the Jellyfin API key.
    pub jellyfin_api_key_ref: Option<String>,
    /// Enable hardware transcoding.
    pub hw_transcode: bool,
}

impl Default for MediaConfig {
    fn default() -> (r: MediaConfig)
        ensures
            !r.enabled,
            r.library_paths@.len() == 0,
            r.jellyfin_container@ == "jellyfin"@,
            r.jellyfin_url@ == "http://localhost:8096"@,
            r.jellyfin_api_key_ref is None,
            r.hw_transcode,
    {
        MediaConfig {
            enabled: false,
            library_paths: Vec::new(),
            jellyfin_container: owned("jellyfin"),
            jellyfin_url: owned("http://localhost:8096"),
            jellyfin_api_key_ref: None,
            hw_transcode: true,
        }
    }
}

/// Coding integration settings.
#[derive(Debug)]
pub struct ClaudeConfig {
    pub enabled: bool,
    /// Secret reference for the API key.
    pub api_key_ref: String,
    /// Maximum concurrent coding sessions.
    pub max_sessions: usize,
    /// Workspace directory for sessions.
    pub workspace_dir: String,
    /// The coding tool's program name; empty when none is configured.
    pub program: String,
    /// The model requests use when they name none; empty to take the newest model
    /// the API lists.
    pub model: String,
}

impl ClaudeConfig {
    /// The defaults under a home directory (`.` when unknown).
    pub fn default_in(home: Option<&str>) -> (r: ClaudeConfig)
        ensures
            !r.enabled,
            r.api_key_ref@ == "op://Private/Model API/credential"@,
            r.max_sessions == 4,
            r.workspace_dir@ == path_join(home_or_dot(match home { Some(h) => Some(h@), None => None }), "coding-workspaces"@),
            r.program@.len() == 0,
            r.model@.len() == 0,
    {
        let h = home_dir_or_dot(home);
        ClaudeConfig {
            enabled: false,
            api_key_ref: owned("op://Private/Model API/credential"),
            max_sessions: 4,
            workspace_dir: join_path(h.as_str(), "coding-workspaces"),
            program: String::new(),
            model: String::new(),
        }
    }
}

/// Logging settings.
#[derive(Debug)]
pub struct LoggingConfig {
    /// Log level (trace, debug, info, warn, error).
    pub level: String,
    /// Log directory.
    pub dir: String,
    /// Enable JSON logging.
    pub json: bool,
}

impl LoggingConfig {
    /// The defaults under a home directory (`.` when unknown).
    pub fn default_in(home: Option<&str>) -> (r: LoggingConfig)
        ensures
            r.level@ == "info"@,
            r.dir@ == path_join(path_join(home_or_dot(match home { Some(h) => Some(h@), None => None }), ".henry"@), "logs"@),
            !r.json,
    {
        let h = home_dir_or_dot(home);
        let d = join_path(h.as_str(), ".henry");
        LoggingConfig { level: owned("info"), dir: join_path(d.as_str(), "logs"), json: false }
    }
}

/// Maintenance settings.
#[derive(Debug)]
pub struct MaintConfig {
    pub enabled: bool,
    pub backup_enabled: bool,
    /// Backup schedule (cron, with seconds).
    pub backup_cron: String,
    pub backup_dir: String,
    /// Number of backups kept.
    pub max_backups: usize,
    pub log_rotation_enabled: bool,
    /// Log rotation schedule.
    pub log_rotation_cron: String,
    pub log_dir: String,
    /// Number of rotated log files kept.
    pub max_log_files: usize,
    /// Size in bytes above which a log is rotated.
    pub max_log_size: u64,
    pub update_check_enabled: bool,
    /// Update check schedule.
    pub update_check_cron: String,
    /// Repository (owner/repo) checked for updates.
    pub github_repo: Option<String>,
    /// Data directory (backed up).
    pub data_dir: String,
}

impl MaintConfig {
    /// The defaults under a home directory (`.` when unknown): backups at 3 AM into
    /// `~/.henry/backups` (seven kept), rotation at midnight (ten files, 10 MB),
    /// update checks at noon.
    pub fn default_in(home: Option<&str>) -> (r: MaintConfig)
        ensures
            ({
                let data = path_join(home_or_dot(match home { Some(h) => Some(h@), None => None }), ".henry"@);
                &&& r.enabled && r.backup_enabled && r.log_rotation_enabled && r.update_check_enabled
                &&& r.backup_cron@ == "0 0 3 * * *"@
                &&& r.backup_dir@ == path_join(data, "backups"@)
                &&& r.max_backups == 7
                &&& r.log_rotation_cron@ == "0 0 0 * * *"@
                &&& r.log_dir@ == path_join(data, "logs"@)
                &&& r.max_log_files == 10
                &&& r.max_log_size == 10 * 1024 * 1024
                &&& r.update_check_cron@ == "0 0 12 * * *"@
                &&& r.github_repo matches Some(g) && g@ == "specbug/henry"@
                &&& r.data_dir@ == data
            }),
    {
        let h = home_dir_or_dot(home);
        let data_dir = join_path(h.as_str(), ".henry");
        MaintConfig {
            enabled: true,
            backup_enabled: true,
            backup_cron: owned("0 0 3 * * *"),
            backup_dir: join_path(data_dir.as_str(), "backups"),
            max_backups: 7,
            log_rotation_enabled: true,
            log_rotation_cron: owned("0 0 0 * * *"),
            log_dir: join_path(data_dir.as_str(), "logs"),
            max_log_files: 10,
            max_log_size: 10 * 1024 * 1024,
            update_check_enabled: true,
            update_check_cron: owned("0 0 12 * * *"),
            github_repo: Some(owned("specbug/henry")),
            data_dir,
        }
    }
}

/// Anomaly thresholds as configured.
#[derive(Clone, Copy, Debug)]
pub struct ReactiveThresholds {
    pub disk_warning_percent: Float32,
    pub disk_critical_percent: Float32,
    pub memory_warning_percent: Float32,
    pub memory_critical_percent: Float32,
    pub cpu_warning_percent: Float32,
    pub cpu_alert_duration_secs: u64,
}

impl Default for ReactiveThresholds {
    /// Disk 80% / 95%, memory 85% / 95%, CPU 90% for five minutes.
    fn default() -> (r: ReactiveThresholds)
        ensures
            r.disk_warning_percent.bits == 0x42A0_0000,
            r.disk_critical_percent.bits == 0x42BE_0000,
            r.memory_warning_percent.bits == 0x42AA_0000,
            r.memory_critical_percent.bits == 0x42BE_0000,
            r.cpu_warning_percent.bits == 0x42B4_0000,
            r.cpu_alert_duration_secs == 300,
    {
        ReactiveThresholds {
            disk_warning_percent: Float32::from_bits(0x42A0_0000),
            disk_critical_percent: Float32::from_bits(0x42BE_0000),
            memory_warning_percent: Float32::from_bits(0x42AA_0000),
            memory_critical_percent: Float32::from_bits(0x42BE_0000),
            cpu_warning_percent: Float32::from_bits(0x42B4_0000),
            cpu_alert_duration_secs: 300,
        }
    }
}

/// A remediation rule as configured.
#[derive(Debug)]
pub struct ReactiveRule {
    pub name: String,
    pub event_pattern: String,
    pub action: String,
    pub requires_approval: bool,
    pub cooldown_secs: u64,
    pub max_triggers_per_day: u32,
    pub pre_action: Option<String>,
}

/// The cooldown a configured rule gets when none is given.
pub fn default_cooldown_secs() -> (r: u64)
    ensures
        r == 300,
{
    300
}

/// The daily limit a configured rule gets when none is given.
pub fn default_max_triggers() -> (r: u32)
    ensures
        r == 10,
{
    10
}

/// Notification settings for the reactive engine.
#[derive(Debug)]
pub struct ReactiveNotifications {
    /// Verbosity: all, milestones, critical.
    pub verbosity: String,
    pub include_routine_fixes: bool,
    /// Batch interval (0 = immediate).
    pub batch_interval_secs: u64,
}

impl Default for ReactiveNotifications {
    fn default() -> (r: ReactiveNotifications)
        ensures
            r.verbosity@ == "all"@,
            r.include_routine_fixes,
            r.batch_interval_secs == 0,
    {
        ReactiveNotifications { verbosity: owned("all"), include_routine_fixes: true, batch_interval_secs: 0 }
    }
}

/// Reactive control loop settings.
#[derive(Debug)]
pub struct ReactiveConfig {
    pub enabled: bool,
    pub check_interval_secs: u64,
    pub max_actions_per_hour: u32,
    pub max_concurrent_actions: usize,
    pub thresholds: ReactiveThresholds,
    pub rules: Vec<ReactiveRule>,
    pub notifications: ReactiveNotifications,
    pub quiet_hours_start: u8,
    pub quiet_hours_end: u8,
}

impl Default for ReactiveConfig {
    fn default() -> (r: ReactiveConfig)
        ensures
            r.enabled,
            r.check_interval_secs == 10,
            r.max_actions_per_hour == 20,
            r.max_concurrent_actions == 3,
            r.rules@.len() == 0,
            r.notifications.verbosity@ == "all"@,
            r.quiet_hours_start == 2,
            r.quiet_hours_end == 6,
    {
        ReactiveConfig {
            enabled: true,
            check_interval_secs: 10,
            max_actions_per_hour: 20,
            max_concurrent_actions: 3,
            thresholds: ReactiveThresholds::default(),
            rules: Vec::new(),
            notifications: ReactiveNotifications::default(),
            quiet_hours_start: 2,
            quiet_hours_end: 6,
        }
    }
}

/// Safety settings of the agent.
#[derive(Debug)]
pub struct AgentSafetyConfig {
    pub command_allowlist: Vec<String>,
    pub command_blocklist: Vec<String>,
    pub require_approval_for: Vec<String>,
}

impl Default for AgentSafetyConfig {
    fn default() -> (r: AgentSafetyConfig)
        ensures
            r.command_allowlist@.len() == 5,
            r.command_allowlist@[0]@ == "ls"@ && r.command_allowlist@[1]@ == "cat"@ && r.command_allowlist@[2]@ == "git"@
                && r.command_allowlist@[3]@ == "npm"@ && r.command_allowlist@[4]@ == "cargo"@,
            r.command_blocklist@.len() == 3,
            r.command_blocklist@[0]@ == "rm -rf"@ && r.command_blocklist@[1]@ == "sudo"@ && r.command_blocklist@[2]@ == "chmod 777"@,
            r.require_approval_for@.len() == 2,
            r.require_approval_for@[0]@ == "file_deletion"@ && r.require_approval_for@[1]@ == "system_changes"@,
    {
        let mut allow: Vec<String> = Vec::new();
        allow.push(owned("ls"));
        allow.push(owned("cat"));
        allow.push(owned("git"));
        allow.push(owned("npm"));
        allow.push(owned("cargo"));
        let mut block: Vec<String> = Vec::new();
        block.push(owned("rm -rf"));
        block.push(owned("sudo"));
        block.push(owned("chmod 777"));
        let mut approve: Vec<String> = Vec::new();
        approve.push(owned("file_deletion"));
        approve.push(owned("system_changes"));
        AgentSafetyConfig { command_allowlist: allow, command_blocklist: block, require_approval_for: approve }
    }
}

/// Agent settings.
#[derive(Debug)]
pub struct AgentConfig {
    pub enabled: bool,
    pub max_concurrent_tasks: usize,
    pub max_steps_per_task: usize,
    pub max_tokens_per_task: u32,
    pub max_iterations_per_step: u32,
    pub step_timeout_secs: u64,
    /// The model to plan with; empty when none is set.
    pub planning_model: String,
    pub safety: AgentSafetyConfig,
}

impl Default for AgentConfig {
    fn default() -> (r: AgentConfig)
        ensures
            !r.enabled,
            r.max_concurrent_tasks == 1,
            r.max_steps_per_task == 10,
            r.max_tokens_per_task == 50000,
            r.max_iterations_per_step == 5,
            r.step_timeout_secs == 300,
            r.planning_model@.len() == 0,
            r.safety.command_blocklist@.len() == 3,
    {
        AgentConfig {
            enabled: false,
            max_concurrent_tasks: 1,
            max_steps_per_task: 10,
            max_tokens_per_task: 50000,
            max_iterations_per_step: 5,
            step_timeout_secs: 300,
            planning_model: String::new(),
            safety: AgentSafetyConfig::default(),
        }
    }
}

/// The whole configuration.
#[derive(Debug)]
pub struct Config {
    pub daemon: DaemonConfig,
    pub network: NetworkConfig,
    pub telegram: TelegramConfig,
    pub http: HttpConfig,
    pub containers: ContainerConfig,
    pub media: MediaConfig,
    pub coding: ClaudeConfig,
    pub maint: MaintConfig,
    pub logging: LoggingConfig,
    pub reactive: ReactiveConfig,
    pub agent: AgentConfig,
}

/// The first validation failure of a configuration, if any.
pub open spec fn validation_failure(c: Config) -> Option<Seq<char>> {
    if c.daemon.lock_port == 0 {
        Some("lock_port cannot be 0"@)
    } else if c.http.enabled && c.http.port == 0 {
        Some("http.port cannot be 0 when enabled"@)
    } else if c.telegram.enabled && c.telegram.allowed_users@.len() == 0 && c.telegram.allowed_usernames@.len() == 0 {
        Some("telegram requires at least one allowed_users or allowed_usernames entry"@)
    } else {
        None
    }
}

impl Config {
    /// Every section's defaults, paths under the given home directory (`.` when unknown).
    pub fn default_in(home: Option<&str>) -> (r: Config)
        ensures
            r.daemon.lock_port == 18790,
            r.http.enabled && r.http.port == 18791,
            !r.telegram.enabled,
            r.telegram.allowed_users@.len() == 0 && r.telegram.allowed_usernames@.len() == 0,
            validation_failure(r) is None,
            ({
                let h = home_or_dot(match home { Some(h) => Some(h@), None => None });
                &&& r.daemon.data_dir@ == path_join(h, ".henry"@)
                &&& r.daemon.pid_file@ == path_join(path_join(h, ".henry"@), "henry.pid"@)
                &&& r.coding.workspace_dir@ == path_join(h, "coding-workspaces"@)
                &&& r.maint.data_dir@ == path_join(h, ".henry"@)
                &&& r.maint.backup_dir@ == path_join(path_join(h, ".henry"@), "backups"@)
                &&& r.maint.log_dir@ == path_join(path_join(h, ".henry"@), "logs"@)
                &&& r.logging.dir@ == path_join(path_join(h, ".henry"@), "logs"@)
            }),
    {
        Config {
            daemon: DaemonConfig::default_in(home),
            network: NetworkConfig::default(),
            telegram: TelegramConfig::default(),
            http: HttpConfig::default(),
            containers: ContainerConfig::default(),
            media: MediaConfig::default(),
            coding: ClaudeConfig::default_in(home),
            maint: MaintConfig::default_in(home),
            logging: LoggingConfig::default_in(home),
            reactive: ReactiveConfig::default(),
            agent: AgentConfig::default(),
        }
    }

    /// Checks the values: a zero lock port, a zero port for an enabled HTTP API, and
    /// an enabled Telegram bot that admits nobody are refused.
    pub fn validate(&self) -> (r: Result<(), ConfigError>)
        ensures
            match validation_failure(*self) {
                None => r is Ok,
                Some(m) => r matches Err(ConfigError::Validation(x)) && x@ == m,
            },
    {
        if self.daemon.lock_port == 0 {
            return Err(ConfigError::Validation(owned("lock_port cannot be 0")));
        }
        if self.http.enabled && self.http.port == 0 {
            return Err(ConfigError::Validation(owned("http.port cannot be 0 when enabled")));
        }
        if self.telegram.enabled && self.telegram.allowed_users.len() == 0 && self.telegram.allowed_usernames.len() == 0 {
            return Err(ConfigError::Validation(owned("telegram requires at least one allowed_users or allowed_usernames entry")));
        }
        Ok(())
    }

    /// The configuration files looked for, in order: the working directory, the
    /// home directory (when known), then `/etc/henry`.
    pub fn default_paths(home: Option<&str>) -> (r: Vec<String>)
        ensures
            ({
                let fixed = seq!["config.toml"@, "henry.toml"@];
                let homed = match home {
                    Some(h) => seq![
                        path_join(path_join(h@, ".henry"@), "config.toml"@),
                        path_join(path_join(path_join(h@, ".config"@), "henry"@), "config.toml"@),
                    ],
                    None => Seq::<Seq<char>>::empty(),
                };
                crate::text::views(r@) == fixed + homed + seq!["/etc/henry/config.toml"@]
            }),
    {
        let mut paths: Vec<String> = Vec::new();
        paths.push(owned("config.toml"));
        paths.push(owned("henry.toml"));
        match home {
            Some(h) => {
                let a = join_path(h, ".henry");
                paths.push(join_path(a.as_str(), "config.toml"));
                let b = join_path(h, ".config");
                let c = join_path(b.as_str(), "henry");
                paths.push(join_path(c.as_str(), "config.toml"));
            },
            None => {},
        }
        paths.push(owned("/etc/henry/config.toml"));
        proof {
            let fixed = seq!["config.toml"@, "henry.toml"@];
            let homed = match home {
                Some(h) => seq![
                    path_join(path_join(h@, ".henry"@), "config.toml"@),
                    path_join(path_join(path_join(h@, ".config"@), "henry"@), "config.toml"@),
                ],
                None => Seq::<Seq<char>>::empty(),
            };
            assert(crate::text::views(paths@) =~= fixed + homed + seq!["/etc/henry/config.toml"@]);
        }
        paths
    }
}

} // verus!
