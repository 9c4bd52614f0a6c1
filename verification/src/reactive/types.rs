//! Core types of the reactive control loop: events, anomalies, actions and
//! the loop's own counters.

use vstd::prelude::*;
use crate::clock::{hours_between, hours_since, in_range, new_uuid, now_millis, uuid_v4_text};
use crate::float32::{format_1dp_spec, ge_spec, Float32};
use crate::text::{
    ascii_lower, clone_opt_string, clone_strings, is_ascii_seq, join, join_seq, lowercase, owned, signed_decimal,
    i64_to_string, decimal, u64_to_string, str_eq, to_lowercase, views,
};

verus! {

// ---------------------------------------------------------------------------
// Severity
// ---------------------------------------------------------------------------

/// Severity levels for anomalies, from least to most severe.
#[derive(Clone, Copy, Debug, PartialEq, Eq, PartialOrd, Ord, Hash, Structural)]
pub enum Severity {
    /// Informational event, may not require action.
    Info,
    /// Warning level, should be monitored.
    Warning,
    /// Critical issue requiring immediate attention.
    Critical,
    /// Emergency situation, system may be at risk.
    Emergency,
}

/// The position of a severity in the order `Info < Warning < Critical < Emergency`.
pub open spec fn severity_rank(s: Severity) -> int {
    match s {
        Severity::Info => 0,
        Severity::Warning => 1,
        Severity::Critical => 2,
        Severity::Emergency => 3,
    }
}

/// The lower-case name of a severity.
pub open spec fn severity_name(s: Severity) -> Seq<char> {
    match s {
        Severity::Info => "info"@,
        Severity::Warning => "warning"@,
        Severity::Critical => "critical"@,
        Severity::Emergency => "emergency"@,
    }
}

/// The severity a lower-cased name denotes, with the short aliases.
pub open spec fn severity_from_name(s: Seq<char>) -> Option<Severity> {
    if s == "info"@ {
        Some(Severity::Info)
    } else if s == "warning"@ || s == "warn"@ {
        Some(Severity::Warning)
    } else if s == "critical"@ || s == "crit"@ {
        Some(Severity::Critical)
    } else if s == "emergency"@ || s == "emerg"@ {
        Some(Severity::Emergency)
    } else {
        None
    }
}

impl Severity {
    /// The position of this severity in the severity order.
    pub fn level(&self) -> (r: u8)
        ensures
            r == severity_rank(*self),
    {
        match self {
            Severity::Info => 0,
            Severity::Warning => 1,
            Severity::Critical => 2,
            Severity::Emergency => 3,
        }
    }

    /// Whether `self` is strictly less severe than `other`.
    pub fn is_below(&self, other: &Severity) -> (r: bool)
        ensures
            r == (severity_rank(*self) < severity_rank(*other)),
    {
        self.level() < other.level()
    }

    /// The display name.
    pub fn as_str(&self) -> (r: &'static str)
        ensures
            r@ == severity_name(*self),
    {
        match self {
            Severity::Info => "info",
            Severity::Warning => "warning",
            Severity::Critical => "critical",
            Severity::Emergency => "emergency",
        }
    }

    /// The display name as an owned string (what `Display` prints).
    pub fn to_string(&self) -> (r: String)
        ensures
            r@ == severity_name(*self),
    {
        owned(self.as_str())
    }

    /// Parses a severity name, case-insensitively, accepting `warn`, `crit` and `emerg`.
    pub fn parse(s: &str) -> (r: Result<Severity, String>)
        ensures
            match severity_from_name(lowercase(s@)) {
                Some(v) => r == Ok::<Severity, String>(v),
                None => r is Err && r->Err_0@ == "unknown severity: "@ + s@,
            },
            is_ascii_seq(s@) ==> lowercase(s@) == ascii_lower(s@),
    {
        let lower = to_lowercase(s);
        let l = lower.as_str();
        if str_eq(l, "info") {
            Ok(Severity::Info)
        } else if str_eq(l, "warning") || str_eq(l, "warn") {
            Ok(Severity::Warning)
        } else if str_eq(l, "critical") || str_eq(l, "crit") {
            Ok(Severity::Critical)
        } else if str_eq(l, "emergency") || str_eq(l, "emerg") {
            Ok(Severity::Emergency)
        } else {
            Err(owned("unknown severity: ").concat(s))
        }
    }
}

impl std::str::FromStr for Severity {
    type Err = String;

    fn from_str(s: &str) -> (r: Result<Severity, String>)
        ensures
            match severity_from_name(lowercase(s@)) {
                Some(v) => r == Ok::<Severity, String>(v),
                None => r is Err && r->Err_0@ == "unknown severity: "@ + s@,
            },
    {
        Severity::parse(s)
    }
}

// ---------------------------------------------------------------------------
// System events
// ---------------------------------------------------------------------------

/// Bit pattern of `90.0_f32`.
pub const PERCENT_90: u32 = 0x42B4_0000;

/// System events that the reactive loop can detect.
#[derive(Clone, Debug)]
pub enum SystemEvent {
    /// A container has crashed or exited unexpectedly.
    ContainerCrashed { name: String, exit_code: Option<i64> },
    /// Disk space is running low.
    DiskSpaceLow { mount_point: String, percent: Float32, available_bytes: u64 },
    /// A service is unreachable.
    ServiceUnreachable { service: String, url: String, error: String },
    /// Memory usage is high.
    MemoryPressure { percent: Float32, used_bytes: u64, total_bytes: u64 },
    /// A backup operation failed.
    BackupFailed { error: String },
    /// An update is available.
    UpdateAvailable { current: String, latest: String },
    /// A container has been restarted too many times.
    ContainerRestartLoop { name: String, restart_count: u32, window_secs: u64 },
    /// CPU usage is consistently high.
    HighCpuUsage { percent: Float32, duration_secs: u64 },
    /// A module health check failed.
    ModuleUnhealthy { module: String, message: Option<String> },
}

/// The event type string used to match remediation rules.
pub open spec fn event_type_spec(e: SystemEvent) -> Seq<char> {
    match e {
        SystemEvent::ContainerCrashed { .. } => "container_crashed"@,
        SystemEvent::DiskSpaceLow { .. } => "disk_space_low"@,
        SystemEvent::ServiceUnreachable { .. } => "service_unreachable"@,
        SystemEvent::MemoryPressure { .. } => "memory_pressure"@,
        SystemEvent::BackupFailed { .. } => "backup_failed"@,
        SystemEvent::UpdateAvailable { .. } => "update_available"@,
        SystemEvent::ContainerRestartLoop { .. } => "container_restart_loop"@,
        SystemEvent::HighCpuUsage { .. } => "high_cpu_usage"@,
        SystemEvent::ModuleUnhealthy { .. } => "module_unhealthy"@,
    }
}

/// Severity of a usage percentage: 90% and above is critical, anything else (NaN
/// included) a warning.
pub open spec fn usage_severity(percent: Float32) -> Severity {
    if ge_spec(percent.bits, PERCENT_90) {
        Severity::Critical
    } else {
        Severity::Warning
    }
}

/// The default severity of an event.
pub open spec fn default_severity_spec(e: SystemEvent) -> Severity {
    match e {
        SystemEvent::ContainerCrashed { .. } => Severity::Critical,
        SystemEvent::DiskSpaceLow { percent, .. } => usage_severity(percent),
        SystemEvent::ServiceUnreachable { .. } => Severity::Critical,
        SystemEvent::MemoryPressure { percent, .. } => usage_severity(percent),
        SystemEvent::BackupFailed { .. } => Severity::Warning,
        SystemEvent::UpdateAvailable { .. } => Severity::Info,
        SystemEvent::ContainerRestartLoop { .. } => Severity::Critical,
        SystemEvent::HighCpuUsage { .. } => Severity::Warning,
        SystemEvent::ModuleUnhealthy { .. } => Severity::Warning,
    }
}

/// The human-readable description of an event.
pub open spec fn description_spec(e: SystemEvent) -> Seq<char> {
    match e {
        SystemEvent::ContainerCrashed { name, exit_code } => match exit_code {
            Some(code) => "Container '"@ + name@ + "' crashed with exit code "@ + signed_decimal(code as int),
            None => "Container '"@ + name@ + "' crashed"@,
        },
        SystemEvent::DiskSpaceLow { mount_point, percent, .. } =>
            "Disk space low on '"@ + mount_point@ + "' ("@ + format_1dp_spec(percent.bits) + "% used)"@,
        SystemEvent::ServiceUnreachable { service, url, error } =>
            "Service '"@ + service@ + "' unreachable at "@ + url@ + ": "@ + error@,
        SystemEvent::MemoryPressure { percent, .. } =>
            "Memory pressure high ("@ + format_1dp_spec(percent.bits) + "% used)"@,
        SystemEvent::BackupFailed { error } => "Backup failed: "@ + error@,
        SystemEvent::UpdateAvailable { current, latest } =>
            "Update available: "@ + current@ + " -> "@ + latest@,
        SystemEvent::ContainerRestartLoop { name, restart_count, .. } =>
            "Container '"@ + name@ + "' in restart loop ("@ + decimal(restart_count as nat) + " restarts)"@,
        SystemEvent::HighCpuUsage { percent, duration_secs } =>
            "High CPU usage ("@ + format_1dp_spec(percent.bits) + "% for "@ + decimal(duration_secs as nat) + "s)"@,
        SystemEvent::ModuleUnhealthy { module, message } => match message {
            Some(msg) => "Module '"@ + module@ + "' unhealthy: "@ + msg@,
            None => "Module '"@ + module@ + "' unhealthy"@,
        },
    }
}

fn usage_severity_exec(percent: &Float32) -> (r: Severity)
    ensures
        r == usage_severity(*percent),
{
    if percent.ge(&Float32::from_bits(PERCENT_90)) {
        Severity::Critical
    } else {
        Severity::Warning
    }
}

impl SystemEvent {
    /// A copy of the event.
    pub fn duplicate(&self) -> (r: SystemEvent)
        ensures
            r == *self,
    {
        match self {
            SystemEvent::ContainerCrashed { name, exit_code } =>
                SystemEvent::ContainerCrashed { name: name.clone(), exit_code: *exit_code },
            SystemEvent::DiskSpaceLow { mount_point, percent, available_bytes } =>
                SystemEvent::DiskSpaceLow {
                    mount_point: mount_point.clone(),
                    percent: *percent,
                    available_bytes: *available_bytes,
                },
            SystemEvent::ServiceUnreachable { service, url, error } =>
                SystemEvent::ServiceUnreachable {
                    service: service.clone(),
                    url: url.clone(),
                    error: error.clone(),
                },
            SystemEvent::MemoryPressure { percent, used_bytes, total_bytes } =>
                SystemEvent::MemoryPressure {
                    percent: *percent,
                    used_bytes: *used_bytes,
                    total_bytes: *total_bytes,
                },
            SystemEvent::BackupFailed { error } => SystemEvent::BackupFailed { error: error.clone() },
            SystemEvent::UpdateAvailable { current, latest } =>
                SystemEvent::UpdateAvailable { current: current.clone(), latest: latest.clone() },
            SystemEvent::ContainerRestartLoop { name, restart_count, window_secs } =>
                SystemEvent::ContainerRestartLoop {
                    name: name.clone(),
                    restart_count: *restart_count,
                    window_secs: *window_secs,
                },
            SystemEvent::HighCpuUsage { percent, duration_secs } =>
                SystemEvent::HighCpuUsage { percent: *percent, duration_secs: *duration_secs },
            SystemEvent::ModuleUnhealthy { module, message } =>
                SystemEvent::ModuleUnhealthy { module: module.clone(), message: clone_opt_string(message) },
        }
    }

    /// The event type as a string for pattern matching.
    pub fn event_type(&self) -> (r: &'static str)
        ensures
            r@ == event_type_spec(*self),
    {
        match self {
            SystemEvent::ContainerCrashed { .. } => "container_crashed",
            SystemEvent::DiskSpaceLow { .. } => "disk_space_low",
            SystemEvent::ServiceUnreachable { .. } => "service_unreachable",
            SystemEvent::MemoryPressure { .. } => "memory_pressure",
            SystemEvent::BackupFailed { .. } => "backup_failed",
            SystemEvent::UpdateAvailable { .. } => "update_available",
            SystemEvent::ContainerRestartLoop { .. } => "container_restart_loop",
            SystemEvent::HighCpuUsage { .. } => "high_cpu_usage",
            SystemEvent::ModuleUnhealthy { .. } => "module_unhealthy",
        }
    }

    /// The default severity for this event.
    pub fn default_severity(&self) -> (r: Severity)
        ensures
            r == default_severity_spec(*self),
    {
        match self {
            SystemEvent::ContainerCrashed { .. } => Severity::Critical,
            SystemEvent::DiskSpaceLow { percent, .. } => usage_severity_exec(percent),
            SystemEvent::ServiceUnreachable { .. } => Severity::Critical,
            SystemEvent::MemoryPressure { percent, .. } => usage_severity_exec(percent),
            SystemEvent::BackupFailed { .. } => Severity::Warning,
            SystemEvent::UpdateAvailable { .. } => Severity::Info,
            SystemEvent::ContainerRestartLoop { .. } => Severity::Critical,
            SystemEvent::HighCpuUsage { .. } => Severity::Warning,
            SystemEvent::ModuleUnhealthy { .. } => Severity::Warning,
        }
    }

    /// A human-readable description of the event.
    pub fn description(&self) -> (r: String)
        ensures
            r@ == description_spec(*self),
    {
        match self {
            SystemEvent::ContainerCrashed { name, exit_code } => match exit_code {
                Some(code) => owned("Container '").concat(name.as_str()).concat(
                    "' crashed with exit code ",
                ).concat(i64_to_string(*code).as_str()),
                None => owned("Container '").concat(name.as_str()).concat("' crashed"),
            },
            SystemEvent::DiskSpaceLow { mount_point, percent, .. } => owned("Disk space low on '").concat(
                mount_point.as_str(),
            ).concat("' (").concat(percent.format_1dp().as_str()).concat("% used)"),
            SystemEvent::ServiceUnreachable { service, url, error } => owned("Service '").concat(
                service.as_str(),
            ).concat("' unreachable at ").concat(url.as_str()).concat(": ").concat(error.as_str()),
            SystemEvent::MemoryPressure { percent, .. } => owned("Memory pressure high (").concat(
                percent.format_1dp().as_str(),
            ).concat("% used)"),
            SystemEvent::BackupFailed { error } => owned("Backup failed: ").concat(error.as_str()),
            SystemEvent::UpdateAvailable { current, latest } => owned("Update available: ").concat(
                current.as_str(),
            ).concat(" -> ").concat(latest.as_str()),
            SystemEvent::ContainerRestartLoop { name, restart_count, .. } => owned("Container '").concat(
                name.as_str(),
            ).concat("' in restart loop (").concat(u64_to_string(*restart_count as u64).as_str()).concat(
                " restarts)",
            ),
            SystemEvent::HighCpuUsage { percent, duration_secs } => owned("High CPU usage (").concat(
                percent.format_1dp().as_str(),
            ).concat("% for ").concat(u64_to_string(*duration_secs).as_str()).concat("s)"),
            SystemEvent::ModuleUnhealthy { module, message } => match message {
                Some(msg) => owned("Module '").concat(module.as_str()).concat("' unhealthy: ").concat(
                    msg.as_str(),
                ),
                None => owned("Module '").concat(module.as_str()).concat("' unhealthy"),
            },
        }
    }
}

// ---------------------------------------------------------------------------
// Actions
// ---------------------------------------------------------------------------

/// Urgency level for notifications.
#[derive(Clone, Copy, Debug, PartialEq, Eq, Structural)]
pub enum NotifyUrgency {
    Low,
    Medium,
    High,
}

/// Types of actions that can be taken in response to anomalies.
#[derive(Clone, Debug, PartialEq)]
pub enum ActionType {
    /// Restart a container.
    RestartContainer { name: String },
    /// Rotate and clean up logs.
    RotateLogs,
    /// Trigger a backup.
    TriggerBackup,
    /// Notify the user via configured channels.
    NotifyUser { message: String, urgency: NotifyUrgency },
    /// Escalate to human intervention.
    EscalateToHuman { reason: String },
    /// Run a custom shell command.
    RunCommand { command: String, args: Vec<String>, timeout_secs: u64 },
    /// Self-update Henry (pull, build, restart).
    SelfUpdate,
}

/// The timeout a deserialised `RunCommand` gets when none is given.
pub fn default_timeout() -> (r: u64)
    ensures
        r == 60,
{
    60
}

/// The action type name.
pub open spec fn action_type_name(a: ActionType) -> Seq<char> {
    match a {
        ActionType::RestartContainer { .. } => "restart_container"@,
        ActionType::RotateLogs => "rotate_logs"@,
        ActionType::TriggerBackup => "trigger_backup"@,
        ActionType::NotifyUser { .. } => "notify_user"@,
        ActionType::EscalateToHuman { .. } => "escalate_to_human"@,
        ActionType::RunCommand { .. } => "run_command"@,
        ActionType::SelfUpdate => "self_update"@,
    }
}

/// The human-readable description of an action.
pub open spec fn action_description(a: ActionType) -> Seq<char> {
    match a {
        ActionType::RestartContainer { name } => "Restart container '"@ + name@ + "'"@,
        ActionType::RotateLogs => "Rotate and clean up logs"@,
        ActionType::TriggerBackup => "Trigger a backup"@,
        ActionType::NotifyUser { message, .. } => "Notify user: "@ + message@,
        ActionType::EscalateToHuman { reason } => "Escalate to human: "@ + reason@,
        ActionType::RunCommand { command, args, .. } =>
            "Run command: "@ + command@ + " "@ + join_seq(views(args@), " "@),
        ActionType::SelfUpdate => "Self-update Henry"@,
    }
}

/// Two action types that agree in every field, argument lists compared by content.
pub open spec fn same_action_type(a: ActionType, b: ActionType) -> bool {
    match (a, b) {
        (
            ActionType::RunCommand { command: c1, args: a1, timeout_secs: t1 },
            ActionType::RunCommand { command: c2, args: a2, timeout_secs: t2 },
        ) => c1 == c2 && a1@ == a2@ && t1 == t2,
        _ => a == b,
    }
}

impl ActionType {
    /// A copy of the action type.
    pub fn duplicate(&self) -> (r: ActionType)
        ensures
            same_action_type(r, *self),
    {
        match self {
            ActionType::RestartContainer { name } => ActionType::RestartContainer { name: name.clone() },
            ActionType::RotateLogs => ActionType::RotateLogs,
            ActionType::TriggerBackup => ActionType::TriggerBackup,
            ActionType::NotifyUser { message, urgency } =>
                ActionType::NotifyUser { message: message.clone(), urgency: *urgency },
            ActionType::EscalateToHuman { reason } => ActionType::EscalateToHuman { reason: reason.clone() },
            ActionType::RunCommand { command, args, timeout_secs } => ActionType::RunCommand {
                command: command.clone(),
                args: clone_strings(args),
                timeout_secs: *timeout_secs,
            },
            ActionType::SelfUpdate => ActionType::SelfUpdate,
        }
    }

    /// The action type as a string.
    pub fn action_type(&self) -> (r: &'static str)
        ensures
            r@ == action_type_name(*self),
    {
        match self {
            ActionType::RestartContainer { .. } => "restart_container",
            ActionType::RotateLogs => "rotate_logs",
            ActionType::TriggerBackup => "trigger_backup",
            ActionType::NotifyUser { .. } => "notify_user",
            ActionType::EscalateToHuman { .. } => "escalate_to_human",
            ActionType::RunCommand { .. } => "run_command",
            ActionType::SelfUpdate => "self_update",
        }
    }

    /// A human-readable description of the action.
    pub fn description(&self) -> (r: String)
        ensures
            r@ == action_description(*self),
    {
        match self {
            ActionType::RestartContainer { name } =>
                owned("Restart container '").concat(name.as_str()).concat("'"),
            ActionType::RotateLogs => owned("Rotate and clean up logs"),
            ActionType::TriggerBackup => owned("Trigger a backup"),
            ActionType::NotifyUser { message, .. } => owned("Notify user: ").concat(message.as_str()),
            ActionType::EscalateToHuman { reason } => owned("Escalate to human: ").concat(reason.as_str()),
            ActionType::RunCommand { command, args, .. } => owned("Run command: ").concat(
                command.as_str(),
            ).concat(" ").concat(join(args, " ").as_str()),
            ActionType::SelfUpdate => owned("Self-update Henry"),
        }
    }
}

/// Status of an action.
#[derive(Clone, Copy, Debug, PartialEq, Eq, Structural)]
pub enum ActionStatus {
    /// Action is pending execution.
    Pending,
    /// Action is waiting for human approval.
    AwaitingApproval,
    /// Action is currently executing.
    Executing,
    /// Action completed, verifying results.
    Verifying,
    /// Action completed successfully.
    Completed,
    /// Action failed.
    Failed,
    /// Action was cancelled.
    Cancelled,
}

/// The snake-case name of an action status.
pub open spec fn action_status_name(s: ActionStatus) -> Seq<char> {
    match s {
        ActionStatus::Pending => "pending"@,
        ActionStatus::AwaitingApproval => "awaiting_approval"@,
        ActionStatus::Executing => "executing"@,
        ActionStatus::Verifying => "verifying"@,
        ActionStatus::Completed => "completed"@,
        ActionStatus::Failed => "failed"@,
        ActionStatus::Cancelled => "cancelled"@,
    }
}

/// The status a lower-cased name denotes.
pub open spec fn action_status_from_name(s: Seq<char>) -> Option<ActionStatus> {
    if s == "pending"@ {
        Some(ActionStatus::Pending)
    } else if s == "awaiting_approval"@ {
        Some(ActionStatus::AwaitingApproval)
    } else if s == "executing"@ {
        Some(ActionStatus::Executing)
    } else if s == "verifying"@ {
        Some(ActionStatus::Verifying)
    } else if s == "completed"@ {
        Some(ActionStatus::Completed)
    } else if s == "failed"@ {
        Some(ActionStatus::Failed)
    } else if s == "cancelled"@ {
        Some(ActionStatus::Cancelled)
    } else {
        None
    }
}

impl ActionStatus {
    /// The display name.
    pub fn as_str(&self) -> (r: &'static str)
        ensures
            r@ == action_status_name(*self),
    {
        match self {
            ActionStatus::Pending => "pending",
            ActionStatus::AwaitingApproval => "awaiting_approval",
            ActionStatus::Executing => "executing",
            ActionStatus::Verifying => "verifying",
            ActionStatus::Completed => "completed",
            ActionStatus::Failed => "failed",
            ActionStatus::Cancelled => "cancelled",
        }
    }

    /// The display name as an owned string (what `Display` prints).
    pub fn to_string(&self) -> (r: String)
        ensures
            r@ == action_status_name(*self),
    {
        owned(self.as_str())
    }

    /// Parses a status name case-insensitively.
    pub fn parse(s: &str) -> (r: Result<ActionStatus, String>)
        ensures
            match action_status_from_name(lowercase(s@)) {
                Some(v) => r == Ok::<ActionStatus, String>(v),
                None => r is Err && r->Err_0@ == "unknown action status: "@ + s@,
            },
            is_ascii_seq(s@) ==> lowercase(s@) == ascii_lower(s@),
    {
        let lower = to_lowercase(s);
        let l = lower.as_str();
        if str_eq(l, "pending") {
            Ok(ActionStatus::Pending)
        } else if str_eq(l, "awaiting_approval") {
            Ok(ActionStatus::AwaitingApproval)
        } else if str_eq(l, "executing") {
            Ok(ActionStatus::Executing)
        } else if str_eq(l, "verifying") {
            Ok(ActionStatus::Verifying)
        } else if str_eq(l, "completed") {
            Ok(ActionStatus::Completed)
        } else if str_eq(l, "failed") {
            Ok(ActionStatus::Failed)
        } else if str_eq(l, "cancelled") {
            Ok(ActionStatus::Cancelled)
        } else {
            Err(owned("unknown action status: ").concat(s))
        }
    }
}

impl std::str::FromStr for ActionStatus {
    type Err = String;

    fn from_str(s: &str) -> (r: Result<ActionStatus, String>)
        ensures
            match action_status_from_name(lowercase(s@)) {
                Some(v) => r == Ok::<ActionStatus, String>(v),
                None => r is Err && r->Err_0@ == "unknown action status: "@ + s@,
            },
    {
        ActionStatus::parse(s)
    }
}

// ---------------------------------------------------------------------------
// Anomalies
// ---------------------------------------------------------------------------

/// The actions suggested for an event.
pub open spec fn suggested_actions_spec(e: SystemEvent) -> Seq<ActionType> {
    match e {
        SystemEvent::ContainerCrashed { name, .. } => seq![ActionType::RestartContainer { name }],
        SystemEvent::DiskSpaceLow { .. } => seq![ActionType::RotateLogs],
        SystemEvent::ServiceUnreachable { service, .. } => seq![
            ActionType::RestartContainer { name: service },
            ActionType::NotifyUser {
                message: arbitrary(),
                urgency: NotifyUrgency::High,
            },
        ],
        SystemEvent::MemoryPressure { .. } => seq![ActionType::NotifyUser { message: arbitrary(), urgency: NotifyUrgency::Medium }],
        SystemEvent::BackupFailed { .. } => seq![ActionType::TriggerBackup],
        SystemEvent::UpdateAvailable { .. } => seq![ActionType::NotifyUser { message: arbitrary(), urgency: NotifyUrgency::Low }],
        SystemEvent::ContainerRestartLoop { .. } => seq![ActionType::EscalateToHuman { reason: arbitrary() }],
        SystemEvent::HighCpuUsage { .. } => seq![ActionType::NotifyUser { message: arbitrary(), urgency: NotifyUrgency::Low }],
        SystemEvent::ModuleUnhealthy { .. } => seq![ActionType::NotifyUser { message: arbitrary(), urgency: NotifyUrgency::Medium }],
    }
}

/// The text of the message or reason carried by a suggested action.
pub open spec fn suggested_text(e: SystemEvent) -> Seq<char> {
    match e {
        SystemEvent::ServiceUnreachable { service, .. } => "Service '"@ + service@ + "' is unreachable"@,
        SystemEvent::MemoryPressure { .. } => "High memory pressure detected"@,
        SystemEvent::ContainerRestartLoop { name, .. } => "Container '"@ + name@ + "' is in a restart loop"@,
        SystemEvent::HighCpuUsage { .. } => "High CPU usage detected"@,
        SystemEvent::ModuleUnhealthy { module, .. } => "Module '"@ + module@ + "' is unhealthy"@,
        SystemEvent::UpdateAvailable { current, latest } => "Update available: "@ + current@ + " -> "@ + latest@,
        _ => Seq::empty(),
    }
}

/// Whether `actions` are the actions suggested for `e`: the right kinds, targets
/// and urgencies, and messages that read `suggested_text(e)`.
pub open spec fn is_suggestion_for(e: SystemEvent, actions: Seq<ActionType>) -> bool {
    let s = suggested_actions_spec(e);
    &&& actions.len() == s.len()
    &&& forall|i: int| 0 <= i < s.len() ==> match (#[trigger] actions[i], s[i]) {
        (ActionType::NotifyUser { message, urgency }, ActionType::NotifyUser { urgency: u, .. }) =>
            urgency == u && message@ == suggested_text(e),
        (ActionType::EscalateToHuman { reason }, ActionType::EscalateToHuman { .. }) =>
            reason@ == suggested_text(e),
        (a, b) => a == b,
    }
}

/// An anomaly detected by the observer.
#[derive(Clone, Debug)]
pub struct Anomaly {
    /// Unique identifier.
    pub id: String,
    /// The event that triggered this anomaly.
    pub event: SystemEvent,
    /// Severity of the anomaly.
    pub severity: Severity,
    /// When the anomaly was detected (milliseconds since the epoch).
    pub detected_at: i64,
    /// When the anomaly was resolved (if resolved).
    pub resolved_at: Option<i64>,
    /// What resolved the anomaly (action ID or "manual").
    pub resolved_by: Option<String>,
    /// Suggested actions for this anomaly.
    pub suggested_actions: Vec<ActionType>,
}

impl Anomaly {
    /// Suggest actions based on the event type.
    pub fn suggest_actions(event: &SystemEvent) -> (r: Vec<ActionType>)
        ensures
            is_suggestion_for(*event, r@),
    {
        let mut v: Vec<ActionType> = Vec::new();
        match event {
            SystemEvent::ContainerCrashed { name, .. } => {
                v.push(ActionType::RestartContainer { name: name.clone() });
            },
            SystemEvent::DiskSpaceLow { .. } => {
                v.push(ActionType::RotateLogs);
            },
            SystemEvent::ServiceUnreachable { service, .. } => {
                v.push(ActionType::RestartContainer { name: service.clone() });
                v.push(ActionType::NotifyUser {
                    message: owned("Service '").concat(service.as_str()).concat("' is unreachable"),
                    urgency: NotifyUrgency::High,
                });
            },
            SystemEvent::MemoryPressure { .. } => {
                v.push(ActionType::NotifyUser {
                    message: owned("High memory pressure detected"),
                    urgency: NotifyUrgency::Medium,
                });
            },
            SystemEvent::BackupFailed { .. } => {
                v.push(ActionType::TriggerBackup);
            },
            SystemEvent::UpdateAvailable { current, latest } => {
                v.push(ActionType::NotifyUser {
                    message: owned("Update available: ").concat(current.as_str()).concat(" -> ").concat(latest.as_str()),
                    urgency: NotifyUrgency::Low,
                });
            },
            SystemEvent::ContainerRestartLoop { name, .. } => {
                v.push(ActionType::EscalateToHuman {
                    reason: owned("Container '").concat(name.as_str()).concat("' is in a restart loop"),
                });
            },
            SystemEvent::HighCpuUsage { .. } => {
                v.push(ActionType::NotifyUser {
                    message: owned("High CPU usage detected"),
                    urgency: NotifyUrgency::Low,
                });
            },
            SystemEvent::ModuleUnhealthy { module, .. } => {
                v.push(ActionType::NotifyUser {
                    message: owned("Module '").concat(module.as_str()).concat("' is unhealthy"),
                    urgency: NotifyUrgency::Medium,
                });
            },
        }
        v
    }

    /// An anomaly with the given identifier, severity and detection time.
    pub fn create(id: String, event: SystemEvent, severity: Severity, detected_at: i64) -> (r: Anomaly)
        ensures
            r.id == id,
            r.event == event,
            r.severity == severity,
            r.detected_at == detected_at,
            r.resolved_at is None,
            r.resolved_by is None,
            is_suggestion_for(event, r.suggested_actions@),
    {
        let suggested_actions = Anomaly::suggest_actions(&event);
        Anomaly {
            id,
            event,
            severity,
            detected_at,
            resolved_at: None,
            resolved_by: None,
            suggested_actions,
        }
    }

    /// A new anomaly for an event, with the event's default severity, a fresh
    /// identifier and the current time.
    pub fn new(event: SystemEvent) -> (r: Anomaly)
        ensures
            r.event == event,
            r.severity == default_severity_spec(event),
            r.resolved_at is None,
            r.resolved_by is None,
            is_suggestion_for(event, r.suggested_actions@),
            r.id@.len() == 36,
            exists|b: Seq<u8>| b.len() == 16 && r.id@ == uuid_v4_text(b),
            in_range(r.detected_at as int),
    {
        let severity = event.default_severity();
        Anomaly::create(new_uuid(), event, severity, now_millis())
    }

    /// A new anomaly with a chosen severity.
    pub fn with_severity(event: SystemEvent, severity: Severity) -> (r: Anomaly)
        ensures
            r.event == event,
            r.severity == severity,
            r.resolved_at is None,
            r.resolved_by is None,
            is_suggestion_for(event, r.suggested_actions@),
            r.id@.len() == 36,
            exists|b: Seq<u8>| b.len() == 16 && r.id@ == uuid_v4_text(b),
            in_range(r.detected_at as int),
    {
        Anomaly::create(new_uuid(), event, severity, now_millis())
    }

    /// Marks the anomaly resolved at `now` by `resolved_by`.
    pub fn resolve_at(&mut self, resolved_by: &str, now: i64)
        ensures
            final(self).resolved_at == Some(now),
            final(self).resolved_by matches Some(b) && b@ == resolved_by@,
            final(self).id == old(self).id,
            final(self).event == old(self).event,
            final(self).severity == old(self).severity,
            final(self).detected_at == old(self).detected_at,
            final(self).suggested_actions == old(self).suggested_actions,
    {
        self.resolved_at = Some(now);
        self.resolved_by = Some(owned(resolved_by));
    }

    /// Marks the anomaly resolved now.
    pub fn resolve(&mut self, resolved_by: &str)
        ensures
            final(self).resolved_at matches Some(t) && in_range(t as int),
            final(self).resolved_by matches Some(b) && b@ == resolved_by@,
            final(self).id == old(self).id,
            final(self).event == old(self).event,
            final(self).severity == old(self).severity,
            final(self).detected_at == old(self).detected_at,
            final(self).suggested_actions == old(self).suggested_actions,
    {
        let now = now_millis();
        self.resolve_at(resolved_by, now);
    }

    /// Whether the anomaly is resolved.
    pub fn is_resolved(&self) -> (r: bool)
        ensures
            r == self.resolved_at is Some,
    {
        self.resolved_at.is_some()
    }

    /// A copy of the anomaly.
    pub fn duplicate(&self) -> (r: Anomaly)
        ensures
            r.id == self.id,
            r.event == self.event,
            r.severity == self.severity,
            r.detected_at == self.detected_at,
            r.resolved_at == self.resolved_at,
            r.resolved_by == self.resolved_by,
            r.suggested_actions@.len() == self.suggested_actions@.len(),
            forall|i: int| 0 <= i < r.suggested_actions@.len() ==>
                same_action_type(#[trigger] r.suggested_actions@[i], self.suggested_actions@[i]),
    {
        let mut acts: Vec<ActionType> = Vec::new();
        let mut i: usize = 0;
        while i < self.suggested_actions.len()
            invariant
                i <= self.suggested_actions.len(),
                acts@.len() == i,
                forall|j: int| 0 <= j < i ==> same_action_type(#[trigger] acts@[j], self.suggested_actions@[j]),
            decreases self.suggested_actions.len() - i,
        {
            acts.push(self.suggested_actions[i].duplicate());
            i = i + 1;
        }
        Anomaly {
            id: self.id.clone(),
            event: self.event.duplicate(),
            severity: self.severity,
            detected_at: self.detected_at,
            resolved_at: self.resolved_at,
            resolved_by: clone_opt_string(&self.resolved_by),
            suggested_actions: acts,
        }
    }
}

/// A recorded action taken (or to be taken) in response to an anomaly.
#[derive(Clone, Debug)]
pub struct Action {
    /// Unique identifier.
    pub id: String,
    /// The anomaly that triggered this action.
    pub anomaly_id: String,
    /// The type of action.
    pub action_type: ActionType,
    /// When the action was created (milliseconds since the epoch).
    pub created_at: i64,
    /// Whether the action requires human approval.
    pub requires_approval: bool,
    /// Who approved the action (if applicable).
    pub approved_by: Option<String>,
    /// When approval was given.
    pub approved_at: Option<i64>,
    /// When the action started executing.
    pub executed_at: Option<i64>,
    /// Current status of the action.
    pub status: ActionStatus,
    /// Result message (success or error).
    pub result: Option<String>,
    /// Number of retries attempted.
    pub retries: u32,
    /// Maximum retries allowed.
    pub max_retries: u32,
}

/// The status a fresh action starts in.
pub open spec fn initial_status(requires_approval: bool) -> ActionStatus {
    if requires_approval { ActionStatus::AwaitingApproval } else { ActionStatus::Pending }
}

/// Whether `a` is a fresh action for the given anomaly, type and approval flag.
pub open spec fn is_fresh_action(a: Action, anomaly_id: Seq<char>, t: ActionType, requires_approval: bool) -> bool {
    &&& a.anomaly_id@ == anomaly_id
    &&& a.action_type == t
    &&& a.requires_approval == requires_approval
    &&& a.approved_by is None
    &&& a.approved_at is None
    &&& a.executed_at is None
    &&& a.status == initial_status(requires_approval)
    &&& a.result is None
    &&& a.retries == 0
    &&& a.max_retries == 3
}

/// Whether an action may be retried.
pub open spec fn can_retry_spec(a: Action) -> bool {
    a.retries < a.max_retries && a.status == ActionStatus::Failed
}

impl Action {
    /// An action with the given identifier and creation time.
    pub fn create(id: String, anomaly_id: &str, action_type: ActionType, requires_approval: bool, now: i64) -> (r: Action)
        ensures
            r.id == id,
            r.created_at == now,
            is_fresh_action(r, anomaly_id@, action_type, requires_approval),
    {
        Action {
            id,
            anomaly_id: owned(anomaly_id),
            action_type,
            created_at: now,
            requires_approval,
            approved_by: None,
            approved_at: None,
            executed_at: None,
            status: if requires_approval { ActionStatus::AwaitingApproval } else { ActionStatus::Pending },
            result: None,
            retries: 0,
            max_retries: 3,
        }
    }

    /// A new action with a fresh identifier, created now.
    pub fn new(anomaly_id: &str, action_type: ActionType, requires_approval: bool) -> (r: Action)
        ensures
            is_fresh_action(r, anomaly_id@, action_type, requires_approval),
            r.id@.len() == 36,
            exists|b: Seq<u8>| b.len() == 16 && r.id@ == uuid_v4_text(b),
            in_range(r.created_at as int),
    {
        Action::create(new_uuid(), anomaly_id, action_type, requires_approval, now_millis())
    }

    /// Approves the action at `now`.
    pub fn approve_at(&mut self, approved_by: &str, now: i64)
        ensures
            final(self).approved_by matches Some(b) && b@ == approved_by@,
            final(self).approved_at == Some(now),
            final(self).status == ActionStatus::Pending,
            final(self).id == old(self).id,
            final(self).anomaly_id == old(self).anomaly_id,
            final(self).action_type == old(self).action_type,
            final(self).created_at == old(self).created_at,
            final(self).requires_approval == old(self).requires_approval,
            final(self).executed_at == old(self).executed_at,
            final(self).result == old(self).result,
            final(self).retries == old(self).retries,
            final(self).max_retries == old(self).max_retries,
    {
        self.approved_by = Some(owned(approved_by));
        self.approved_at = Some(now);
        self.status = ActionStatus::Pending;
    }

    /// Approves the action now.
    pub fn approve(&mut self, approved_by: &str)
        ensures
            final(self).approved_by matches Some(b) && b@ == approved_by@,
            final(self).approved_at matches Some(t) && in_range(t as int),
            final(self).status == ActionStatus::Pending,
            final(self).id == old(self).id,
            final(self).anomaly_id == old(self).anomaly_id,
            final(self).action_type == old(self).action_type,
            final(self).created_at == old(self).created_at,
            final(self).requires_approval == old(self).requires_approval,
            final(self).executed_at == old(self).executed_at,
            final(self).result == old(self).result,
            final(self).retries == old(self).retries,
            final(self).max_retries == old(self).max_retries,
    {
        let now = now_millis();
        self.approve_at(approved_by, now);
    }

    /// Marks the action as executing, started at `now`.
    pub fn start_execution_at(&mut self, now: i64)
        ensures
            *final(self) == (Action { executed_at: Some(now), status: ActionStatus::Executing, ..*old(self) }),
    {
        self.executed_at = Some(now);
        self.status = ActionStatus::Executing;
    }

    /// Marks the action as executing, started now.
    pub fn start_execution(&mut self)
        ensures
            final(self).executed_at matches Some(t) && in_range(t as int),
            *final(self) == (Action {
                executed_at: final(self).executed_at,
                status: ActionStatus::Executing,
                ..*old(self)
            }),
    {
        let now = now_millis();
        self.start_execution_at(now);
    }

    /// Marks the action as verifying.
    pub fn start_verification(&mut self)
        ensures
            *final(self) == (Action { status: ActionStatus::Verifying, ..*old(self) }),
    {
        self.status = ActionStatus::Verifying;
    }

    /// Marks the action as completed successfully.
    pub fn complete(&mut self, result: &str)
        ensures
            final(self).status == ActionStatus::Completed,
            final(self).result matches Some(m) && m@ == result@,
            *final(self) == (Action {
                status: ActionStatus::Completed,
                result: final(self).result,
                ..*old(self)
            }),
    {
        self.status = ActionStatus::Completed;
        self.result = Some(owned(result));
    }

    /// Marks the action as failed, counting one more attempt.
    pub fn fail(&mut self, error: &str)
        requires
            old(self).retries < u32::MAX,
        ensures
            final(self).status == ActionStatus::Failed,
            final(self).result matches Some(m) && m@ == error@,
            final(self).retries == old(self).retries + 1,
            *final(self) == (Action {
                status: ActionStatus::Failed,
                result: final(self).result,
                retries: final(self).retries,
                ..*old(self)
            }),
    {
        self.status = ActionStatus::Failed;
        self.result = Some(owned(error));
        self.retries = self.retries + 1;
    }

    /// Whether the action can be retried.
    pub fn can_retry(&self) -> (r: bool)
        ensures
            r == can_retry_spec(*self),
    {
        self.retries < self.max_retries && self.status == ActionStatus::Failed
    }

    /// Resets the action for retry.
    pub fn retry(&mut self)
        ensures
            *final(self) == (Action { status: ActionStatus::Pending, executed_at: None, ..*old(self) }),
    {
        self.status = ActionStatus::Pending;
        self.executed_at = None;
    }

    /// A copy of the action.
    pub fn duplicate(&self) -> (r: Action)
        ensures
            same_action_type(r.action_type, self.action_type),
            r == (Action { action_type: r.action_type, ..*self }),
    {
        Action {
            id: self.id.clone(),
            anomaly_id: self.anomaly_id.clone(),
            action_type: self.action_type.duplicate(),
            created_at: self.created_at,
            requires_approval: self.requires_approval,
            approved_by: clone_opt_string(&self.approved_by),
            approved_at: self.approved_at,
            executed_at: self.executed_at,
            status: self.status,
            result: clone_opt_string(&self.result),
            retries: self.retries,
            max_retries: self.max_retries,
        }
    }
}

// ---------------------------------------------------------------------------
// Control loop state
// ---------------------------------------------------------------------------

/// State of the reactive control loop.
#[derive(Clone, Debug)]
pub struct ControlLoopState {
    /// Whether the loop is running.
    pub running: bool,
    /// Whether the loop is paused.
    pub paused: bool,
    /// When the loop was started.
    pub started_at: Option<i64>,
    /// Total number of checks performed.
    pub total_checks: u64,
    /// Total anomalies detected.
    pub anomalies_detected: u64,
    /// Total actions executed.
    pub actions_executed: u64,
    /// Actions executed in the last hour.
    pub actions_this_hour: u32,
    /// When the hour counter was last reset.
    pub hour_reset_at: i64,
    /// Currently active anomalies.
    pub active_anomalies: usize,
    /// Actions awaiting approval.
    pub pending_approvals: usize,
    /// Last check timestamp.
    pub last_check: Option<i64>,
}

/// The counters after recording one executed action at `now`: the hourly counter
/// restarts when at least a whole hour has passed since its last reset.
pub open spec fn after_record_action(s: ControlLoopState, now: int) -> ControlLoopState {
    if hours_between(now, s.hour_reset_at as int) >= 1 {
        ControlLoopState {
            actions_this_hour: 1,
            hour_reset_at: now as i64,
            actions_executed: (s.actions_executed + 1) as u64,
            ..s
        }
    } else {
        ControlLoopState {
            actions_this_hour: (s.actions_this_hour + 1) as u32,
            actions_executed: (s.actions_executed + 1) as u64,
            ..s
        }
    }
}

impl ControlLoopState {
    /// A fresh state whose hourly window starts at `now`.
    pub fn starting_at(now: i64) -> (r: ControlLoopState)
        ensures
            r == (ControlLoopState {
                running: false,
                paused: false,
                started_at: None,
                total_checks: 0,
                anomalies_detected: 0,
                actions_executed: 0,
                actions_this_hour: 0,
                hour_reset_at: now,
                active_anomalies: 0,
                pending_approvals: 0,
                last_check: None,
            }),
    {
        ControlLoopState {
            running: false,
            paused: false,
            started_at: None,
            total_checks: 0,
            anomalies_detected: 0,
            actions_executed: 0,
            actions_this_hour: 0,
            hour_reset_at: now,
            active_anomalies: 0,
            pending_approvals: 0,
            last_check: None,
        }
    }

    /// Counts one executed action at `now`, restarting the hourly window when an
    /// hour or more has passed.
    pub fn record_action_at(&mut self, now: i64)
        requires
            old(self).actions_executed < u64::MAX,
            hours_between(now as int, old(self).hour_reset_at as int) >= 1 || old(self).actions_this_hour < u32::MAX,
        ensures
            *final(self) == after_record_action(*old(self), now as int),
    {
        let hours = hours_since(now, self.hour_reset_at);
        if hours >= 1 {
            self.actions_this_hour = 0;
            self.hour_reset_at = now;
        }
        self.actions_this_hour = self.actions_this_hour + 1;
        self.actions_executed = self.actions_executed + 1;
    }

    /// Counts one executed action now.
    pub fn record_action(&mut self)
        requires
            old(self).actions_executed < u64::MAX,
            old(self).actions_this_hour < u32::MAX,
        ensures
            exists|now: int| in_range(now) && *final(self) == after_record_action(*old(self), now),
    {
        let now = now_millis();
        self.record_action_at(now);
    }

    /// Whether another action fits in the hourly limit.
    pub fn can_execute_action(&self, max_per_hour: u32) -> (r: bool)
        ensures
            r == (self.actions_this_hour < max_per_hour),
    {
        self.actions_this_hour < max_per_hour
    }

    /// A copy of the state.
    pub fn duplicate(&self) -> (r: ControlLoopState)
        ensures
            r == *self,
    {
        ControlLoopState { ..*self }
    }
}

impl Default for ControlLoopState {
    fn default() -> (r: ControlLoopState)
        ensures
            r.actions_this_hour == 0,
            r.actions_executed == 0,
            !r.running,
            !r.paused,
            in_range(r.hour_reset_at as int),
    {
        ControlLoopState::starting_at(now_millis())
    }
}

// ---------------------------------------------------------------------------
// Laws
// ---------------------------------------------------------------------------

/// Recording `n` actions within one hour of a fresh window.
pub open spec fn record_n(s: ControlLoopState, times: Seq<int>) -> ControlLoopState
    decreases times.len(),
{
    if times.len() == 0 {
        s
    } else {
        after_record_action(record_n(s, times.drop_last()), times.last())
    }
}

/// The hourly rate limit: once `max` actions have been recorded within the same
/// hour of a window, no further action may execute; before that, one may.
pub proof fn lemma_rate_limit(s: ControlLoopState, times: Seq<int>, max: u32)
    requires
        s.actions_this_hour == 0,
        s.actions_executed as int + times.len() < u64::MAX,
        times.len() < u32::MAX,
        forall|i: int| 0 <= i < times.len() ==> hours_between(#[trigger] times[i], s.hour_reset_at as int) < 1,
    ensures
        record_n(s, times).actions_this_hour == times.len(),
        record_n(s, times).hour_reset_at == s.hour_reset_at,
        (record_n(s, times).actions_this_hour < max) <==> (times.len() < max),
    decreases times.len(),
{
    if times.len() > 0 {
        let pre = times.drop_last();
        assert forall|i: int| 0 <= i < pre.len() implies hours_between(#[trigger] pre[i], s.hour_reset_at as int) < 1 by {
            assert(pre[i] == times[i]);
        }
        lemma_rate_limit(s, pre, max);
        assert(hours_between(times[times.len() - 1], s.hour_reset_at as int) < 1);
    }
}

/// Every severity reads back from its name: `Severity::parse(v.as_str())` is `Ok(v)`.
pub proof fn law_severity_round_trip(v: Severity)
    ensures
        is_ascii_seq(severity_name(v)),
        severity_from_name(ascii_lower(severity_name(v))) == Some(v),
{
    reveal_strlit("info");
    reveal_strlit("warning");
    reveal_strlit("critical");
    reveal_strlit("emergency");
    reveal_strlit("warn");
    reveal_strlit("crit");
    reveal_strlit("emerg");
    let n = severity_name(v);
    assert(ascii_lower(n) =~= n);
}

/// Every action status reads back from its name: `ActionStatus::parse(s.as_str())` is `Ok(s)`.
pub proof fn law_action_status_round_trip(v: ActionStatus)
    ensures
        is_ascii_seq(action_status_name(v)),
        action_status_from_name(ascii_lower(action_status_name(v))) == Some(v),
{
    reveal_strlit("pending");
    reveal_strlit("awaiting_approval");
    reveal_strlit("executing");
    reveal_strlit("verifying");
    reveal_strlit("completed");
    reveal_strlit("failed");
    reveal_strlit("cancelled");
    let n = action_status_name(v);
    assert(ascii_lower(n) =~= n);
    match v {
        ActionStatus::Pending => {},
        ActionStatus::AwaitingApproval => { assert(n != "pending"@); },
        ActionStatus::Executing => { assert(n != "pending"@ && n != "awaiting_approval"@); },
        ActionStatus::Verifying => {
            assert(n[0] != "executing"@[0]);
            assert(n != "pending"@ && n != "awaiting_approval"@ && n != "executing"@);
        },
        ActionStatus::Completed => {
            assert(n[0] != "executing"@[0] && n[0] != "verifying"@[0]);
            assert(n != "pending"@ && n != "awaiting_approval"@ && n != "executing"@ && n != "verifying"@);
        },
        ActionStatus::Failed => {
            assert(n != "pending"@ && n != "awaiting_approval"@ && n != "executing"@ && n != "verifying"@);
            assert(n != "completed"@);
        },
        ActionStatus::Cancelled => {
            assert(n[0] != "executing"@[0] && n[0] != "verifying"@[0] && n[2] != "completed"@[2]);
            assert(n != "pending"@ && n != "awaiting_approval"@ && n != "executing"@ && n != "verifying"@);
            assert(n != "completed"@ && n != "failed"@);
        },
    }
}

} // verus!
