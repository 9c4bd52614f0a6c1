//! Bodies of the HTTP API's replies, and the error replies of its endpoints.
//!
//! Routing, serialization and the module calls are the caller's; what each
//! endpoint answers is decided here.

use vstd::prelude::*;
use crate::agent::engine::AgentError;
use crate::agent::types::{
    priority_name, step_status_name, task_status_name, AgentState, Step, Task, TaskPriority, TaskResult,
};
use crate::coding::manager::{ApiError, ClaudeError};
use crate::coding::session::SessionError;
use crate::coding::types::{MessageResponse, SessionInfo};
use crate::clock::{format_rfc3339, in_range, rfc3339};
use crate::health::{status_name, HealthSnapshot, HealthStatus, ModuleHealth, SystemMetrics};
use crate::maint::logs::RotationResult;
use crate::maint::types::{BackupInfo, ScheduledJob};
use crate::media::types::{MediaLibrary, PlaybackSession};
use crate::reactive::engine::ReactiveError;
use crate::reactive::types::{
    action_description, action_status_name, action_type_name, description_spec, event_type_spec,
    severity_name, Action, Anomaly,
};
use crate::server::manager::ContainerError;
use crate::server::types::ContainerInfo;
use crate::text::{clone_opt_string, decimal, lowercase, owned, starts_with, starts_with_seq, str_eq, to_lowercase, u64_to_string};

verus! {

/// Errors of the HTTP server.
#[derive(Debug)]
pub enum HttpError {
    /// The address could not be bound (the system's message).
    Bind(String),
    /// The server failed.
    Server(String),
}

impl HttpError {
    /// The error message.
    pub fn message(&self) -> (r: String)
        ensures
            match self {
                HttpError::Bind(e) => r@ == "failed to bind to address: "@ + e@,
                HttpError::Server(e) => r@ == "server error: "@ + e@,
            },
    {
        match self {
            HttpError::Bind(e) => owned("failed to bind to address: ").concat(e.as_str()),
            HttpError::Server(e) => owned("server error: ").concat(e.as_str()),
        }
    }
}

/// The text answered at the root of the server.
pub fn root_text() -> (r: &'static str)
    ensures
        r@ == "Henry Daemon API"@,
{
    "Henry Daemon API"
}

/// An error reply: HTTP status code and message.
#[derive(Debug)]
pub struct ErrorReply {
    pub status: u16,
    pub message: String,
}

/// The reply when the module an endpoint needs is not enabled: 503.
pub fn module_disabled(module: &str) -> (r: ErrorReply)
    ensures
        r.status == 503,
        r.message@ == module@ + " module not enabled"@,
{
    ErrorReply { status: 503, message: owned(module).concat(" module not enabled") }
}

/// An internal error reply with the error's message: 500.
pub fn internal_error(message: String) -> (r: ErrorReply)
    ensures
        r.status == 500,
        r.message == message,
{
    ErrorReply { status: 500, message }
}

// ---------------------------------------------------------------------------
// Health
// ---------------------------------------------------------------------------

/// Health check response.
#[derive(Debug)]
pub struct HealthResponse {
    pub status: String,
    pub version: String,
}

/// The health check answer: `ok` with the version.
pub fn health_response(version: &str) -> (r: HealthResponse)
    ensures
        r.status@ == "ok"@,
        r.version@ == version@,
{
    HealthResponse { status: owned("ok"), version: owned(version) }
}

/// Full status response.
#[derive(Debug)]
pub struct StatusResponse {
    pub status: String,
    pub version: String,
    pub uptime_secs: u64,
    pub system: SystemMetrics,
}

/// The status answer of a snapshot: overall status name, version, uptime and metrics.
pub fn status_response(snapshot: HealthSnapshot) -> (r: StatusResponse)
    ensures
        r.status@ == status_name(snapshot.overall_status),
        r.version == snapshot.version,
        r.uptime_secs == snapshot.uptime_secs,
        r.system == snapshot.system,
{
    let status = snapshot.overall_status.to_string();
    StatusResponse {
        status,
        version: snapshot.version,
        uptime_secs: snapshot.uptime_secs,
        system: snapshot.system,
    }
}

/// Module list response.
#[derive(Debug)]
pub struct ModulesResponse {
    pub modules: Vec<ModuleInfo>,
}

/// A module in the module list.
#[derive(Debug)]
pub struct ModuleInfo {
    pub name: String,
    pub status: String,
    pub enabled: bool,
    pub message: Option<String>,
}

impl ModuleInfo {
    /// The list entry of a module report.
    pub fn from_health(m: &ModuleHealth) -> (r: ModuleInfo)
        ensures
            r.name@ == m.name@,
            r.status@ == status_name(m.status),
            r.enabled == m.enabled,
            r.message == m.message,
    {
        ModuleInfo {
            name: m.name.clone(),
            status: m.status.to_string(),
            enabled: m.enabled,
            message: clone_opt_string(&m.message),
        }
    }
}

/// The module list answer.
pub fn modules_response(modules: &Vec<ModuleHealth>) -> (r: ModulesResponse)
    ensures
        r.modules@.len() == modules@.len(),
        forall|i: int| 0 <= i < modules@.len() ==> {
            &&& (#[trigger] r.modules@[i]).name@ == modules@[i].name@
            &&& r.modules@[i].status@ == status_name(modules@[i].status)
            &&& r.modules@[i].enabled == modules@[i].enabled
            &&& r.modules@[i].message == modules@[i].message
        },
{
    let mut out: Vec<ModuleInfo> = Vec::new();
    let mut i: usize = 0;
    while i < modules.len()
        invariant
            i <= modules.len(),
            out@.len() == i,
            forall|j: int| 0 <= j < i ==> {
                &&& (#[trigger] out@[j]).name@ == modules@[j].name@
                &&& out@[j].status@ == status_name(modules@[j].status)
                &&& out@[j].enabled == modules@[j].enabled
                &&& out@[j].message == modules@[j].message
            },
        decreases modules.len() - i,
    {
        out.push(ModuleInfo::from_health(&modules[i]));
        i = i + 1;
    }
    ModulesResponse { modules: out }
}

// ---------------------------------------------------------------------------
// Containers
// ---------------------------------------------------------------------------

/// Container list response.
#[derive(Debug)]
pub struct ContainersResponse {
    pub containers: Vec<ContainerInfo>,
}

/// Result of a container action.
#[derive(Debug)]
pub struct ContainerActionResponse {
    pub success: bool,
    pub message: String,
}

/// Logs of a container.
#[derive(Debug)]
pub struct ContainerLogsResponse {
    pub name: String,
    pub logs: String,
}

/// Query of the log endpoints.
#[derive(Debug)]
pub struct LogsQuery {
    pub tail: Option<usize>,
}

impl LogsQuery {
    /// The number of lines asked for: 50 unless given.
    pub fn tail_or_default(&self) -> (r: usize)
        ensures
            r == match self.tail { Some(t) => t, None => 50 },
    {
        match self.tail {
            Some(t) => t,
            None => 50,
        }
    }
}

/// The container operations of the API.
#[derive(Clone, Copy, Debug, PartialEq, Eq, Structural)]
pub enum ContainerOp {
    Start,
    Stop,
    Restart,
}

/// The past-tense verb of an operation.
pub open spec fn op_done(op: ContainerOp) -> Seq<char> {
    match op {
        ContainerOp::Start => "Started"@,
        ContainerOp::Stop => "Stopped"@,
        ContainerOp::Restart => "Restarted"@,
    }
}

fn op_done_text(op: ContainerOp) -> (r: &'static str)
    ensures
        r@ == op_done(op),
{
    match op {
        ContainerOp::Start => "Started",
        ContainerOp::Stop => "Stopped",
        ContainerOp::Restart => "Restarted",
    }
}

/// The answer to a successful container operation.
pub fn container_action_response(op: ContainerOp, name: &str) -> (r: ContainerActionResponse)
    ensures
        r.success,
        r.message@ == op_done(op) + " container: "@ + name@,
{
    ContainerActionResponse { success: true, message: owned(op_done_text(op)).concat(" container: ").concat(name) }
}

/// The reply to a failed container operation: 404 for a missing container, 403 for
/// one outside the allowlist, 500 otherwise.
pub fn container_error_reply(e: &ContainerError, name: &str) -> (r: ErrorReply)
    ensures
        e is NotFound ==> r.status == 404 && r.message@ == "Container not found: "@ + name@,
        e is NotAllowed ==> r.status == 403 && r.message@ == "Container not in allowlist: "@ + name@,
        !(e is NotFound) && !(e is NotAllowed) ==> r.status == 500,
{
    match e {
        ContainerError::NotFound(_) => ErrorReply { status: 404, message: owned("Container not found: ").concat(name) },
        ContainerError::NotAllowed(_) => ErrorReply { status: 403, message: owned("Container not in allowlist: ").concat(name) },
        _ => internal_error(e.message()),
    }
}

// ---------------------------------------------------------------------------
// Media
// ---------------------------------------------------------------------------

/// Library list response.
#[derive(Debug)]
pub struct MediaLibrariesResponse {
    pub libraries: Vec<MediaLibrary>,
}

/// Playback session list response.
#[derive(Debug)]
pub struct MediaSessionsResponse {
    pub sessions: Vec<PlaybackSession>,
}

/// Result of a media action.
#[derive(Debug)]
pub struct MediaActionResponse {
    pub success: bool,
    pub message: String,
}

/// The answer to a started library scan.
pub fn media_scan_response() -> (r: MediaActionResponse)
    ensures
        r.success,
        r.message@ == "Library scan started"@,
{
    MediaActionResponse { success: true, message: owned("Library scan started") }
}

/// The answer to a successful operation on the Jellyfin container.
pub fn media_container_response(op: ContainerOp, container: &str) -> (r: MediaActionResponse)
    ensures
        r.success,
        r.message@ == op_done(op) + " Jellyfin container: "@ + container@,
{
    MediaActionResponse { success: true, message: owned(op_done_text(op)).concat(" Jellyfin container: ").concat(container) }
}

// ---------------------------------------------------------------------------
// Coding sessions
// ---------------------------------------------------------------------------

/// Session list response.
#[derive(Debug)]
pub struct ClaudeSessionsResponse {
    pub sessions: Vec<SessionInfo>,
}

/// Request for a new session.
#[derive(Debug)]
pub struct NewSessionRequest {
    pub workspace: String,
}

/// Result of a session action.
#[derive(Debug)]
pub struct ClaudeActionResponse {
    pub success: bool,
    pub message: String,
}

/// A question to the model.
#[derive(Debug)]
pub struct AskRequest {
    pub question: String,
    pub model: Option<String>,
    pub max_tokens: Option<u32>,
}

/// The model's answer.
#[derive(Debug)]
pub struct AskResponse {
    pub response: String,
    pub model: String,
    pub input_tokens: u32,
    pub output_tokens: u32,
}

/// The answer built from the API's reply.
pub fn ask_response(m: MessageResponse) -> (r: AskResponse)
    ensures
        r.response == m.content,
        r.model == m.model,
        r.input_tokens == m.input_tokens,
        r.output_tokens == m.output_tokens,
{
    AskResponse { response: m.content, model: m.model, input_tokens: m.input_tokens, output_tokens: m.output_tokens }
}

/// The reply to a refused new session: 429 at the session limit, 409 for a busy
/// workspace, 500 otherwise.
pub fn new_session_error_reply(e: &ClaudeError) -> (r: ErrorReply)
    ensures
        e matches ClaudeError::Session(SessionError::MaxSessionsReached(m)) ==> r.status == 429
            && r.message@ == "Max sessions reached: "@ + decimal(m as nat),
        e matches ClaudeError::Session(SessionError::SessionExists(w)) ==> r.status == 409
            && r.message@ == "Session already exists for workspace: "@ + w@,
        !(e matches ClaudeError::Session(SessionError::MaxSessionsReached(_)))
            && !(e matches ClaudeError::Session(SessionError::SessionExists(_))) ==> r.status == 500,
{
    match e {
        ClaudeError::Session(SessionError::MaxSessionsReached(m)) => {
            let d = u64_to_string(*m as u64);
            ErrorReply { status: 429, message: owned("Max sessions reached: ").concat(d.as_str()) }
        },
        ClaudeError::Session(SessionError::SessionExists(w)) => ErrorReply {
            status: 409,
            message: owned("Session already exists for workspace: ").concat(w.as_str()),
        },
        _ => internal_error(e.message()),
    }
}

/// The reply for a session id that names no session: 404.
pub fn session_not_found(id: &str) -> (r: ErrorReply)
    ensures
        r.status == 404,
        r.message@ == "Session not found: "@ + id@,
{
    ErrorReply { status: 404, message: owned("Session not found: ").concat(id) }
}

/// The reply to a failed stop: 404 for an unknown session, 500 otherwise.
pub fn stop_session_error_reply(e: &ClaudeError, id: &str) -> (r: ErrorReply)
    ensures
        e matches ClaudeError::Session(SessionError::SessionNotFound(_)) ==> r.status == 404
            && r.message@ == "Session not found: "@ + id@,
        !(e matches ClaudeError::Session(SessionError::SessionNotFound(_))) ==> r.status == 500,
{
    match e {
        ClaudeError::Session(SessionError::SessionNotFound(_)) => session_not_found(id),
        _ => internal_error(e.message()),
    }
}

/// The answer to a stopped session.
pub fn session_stopped_response(id: &str) -> (r: ClaudeActionResponse)
    ensures
        r.success,
        r.message@ == "Stopped session: "@ + id@,
{
    ClaudeActionResponse { success: true, message: owned("Stopped session: ").concat(id) }
}

/// The reply to a failed question: 503 without a key, 502 for an API failure, 500
/// otherwise.
pub fn ask_error_reply(e: &ClaudeError) -> (r: ErrorReply)
    ensures
        e is NotConfigured ==> r.status == 503 && r.message@ == "API key not configured"@,
        e is Api ==> r.status == 502,
        e is Session ==> r.status == 500,
{
    match e {
        ClaudeError::NotConfigured => ErrorReply { status: 503, message: owned("API key not configured") },
        ClaudeError::Api(a) => {
            let m = a.message();
            ErrorReply { status: 502, message: owned("Model API error: ").concat(m.as_str()) }
        },
        _ => internal_error(e.message()),
    }
}

// ---------------------------------------------------------------------------
// Maintenance
// ---------------------------------------------------------------------------

/// Backup list response.
#[derive(Debug)]
pub struct MaintBackupsResponse {
    pub backups: Vec<BackupInfo>,
}

/// Scheduled job list response.
#[derive(Debug)]
pub struct MaintJobsResponse {
    pub jobs: Vec<ScheduledJob>,
}

/// Result of a maintenance action.
#[derive(Debug)]
pub struct MaintActionResponse {
    pub success: bool,
    pub message: String,
}

/// Result of a log rotation.
#[derive(Debug)]
pub struct LogRotationResponse {
    pub success: bool,
    pub files_rotated: usize,
    pub files_deleted: usize,
    pub bytes_processed: u64,
}

/// The answer to a deleted backup.
pub fn backup_deleted_response(name: &str) -> (r: MaintActionResponse)
    ensures
        r.success,
        r.message@ == "Deleted backup: "@ + name@,
{
    MaintActionResponse { success: true, message: owned("Deleted backup: ").concat(name) }
}

/// The answer to a log rotation.
pub fn rotation_response(result: &RotationResult) -> (r: LogRotationResponse)
    ensures
        r.success,
        r.files_rotated == result.files_rotated,
        r.files_deleted == result.files_deleted,
        r.bytes_processed == result.bytes_processed,
{
    LogRotationResponse {
        success: true,
        files_rotated: result.files_rotated,
        files_deleted: result.files_deleted,
        bytes_processed: result.bytes_processed,
    }
}

// ---------------------------------------------------------------------------
// Reactive
// ---------------------------------------------------------------------------

/// Result of a reactive engine action.
#[derive(Debug)]
pub struct ReactiveActionResponse {
    pub success: bool,
    pub message: String,
}

/// Anomaly list response.
#[derive(Debug)]
pub struct ReactiveAnomaliesResponse {
    pub anomalies: Vec<AnomalyInfo>,
}

/// An anomaly in the list.
#[derive(Debug)]
pub struct AnomalyInfo {
    pub id: String,
    pub event_type: String,
    pub description: String,
    pub severity: String,
    pub detected_at: String,
    pub resolved: bool,
}

/// Action list response.
#[derive(Debug)]
pub struct ReactiveActionsResponse {
    pub actions: Vec<ActionInfo>,
}

/// An action in the list.
#[derive(Debug)]
pub struct ActionInfo {
    pub id: String,
    pub anomaly_id: String,
    pub action_type: String,
    pub description: String,
    pub status: String,
    pub created_at: String,
    pub requires_approval: bool,
}

/// Approval of an action.
#[derive(Debug)]
pub struct ApproveRequest {
    pub approved_by: Option<String>,
}

impl ApproveRequest {
    /// Who approves: the given name, or `api`.
    pub fn approver(&self) -> (r: String)
        ensures
            r@ == match self.approved_by { Some(a) => a@, None => "api"@ },
    {
        match &self.approved_by {
            Some(a) => a.clone(),
            None => owned("api"),
        }
    }
}

/// The answer to pausing or resuming the engine.
pub fn reactive_toggle_response(paused: bool) -> (r: ReactiveActionResponse)
    ensures
        r.success,
        r.message@ == if paused { "Reactive engine paused"@ } else { "Reactive engine resumed"@ },
{
    if paused {
        ReactiveActionResponse { success: true, message: owned("Reactive engine paused") }
    } else {
        ReactiveActionResponse { success: true, message: owned("Reactive engine resumed") }
    }
}

/// The answer to an approved action.
pub fn approved_response(id: &str) -> (r: ReactiveActionResponse)
    ensures
        r.success,
        r.message@ == "Action "@ + id@ + " approved"@,
{
    ReactiveActionResponse { success: true, message: owned("Action ").concat(id).concat(" approved") }
}

/// The reply to a failed approval: 404 for an unknown action, 500 otherwise.
pub fn approve_error_reply(e: &ReactiveError, id: &str) -> (r: ErrorReply)
    ensures
        e is ActionNotFound ==> r.status == 404 && r.message@ == "Action not found: "@ + id@,
        !(e is ActionNotFound) ==> r.status == 500,
{
    match e {
        ReactiveError::ActionNotFound(_) => ErrorReply { status: 404, message: owned("Action not found: ").concat(id) },
        _ => internal_error(e.message()),
    }
}

/// The list entry of an anomaly.
pub fn anomaly_info(a: &Anomaly) -> (r: AnomalyInfo)
    requires
        in_range(a.detected_at as int),
    ensures
        r.id@ == a.id@,
        r.event_type@ == event_type_spec(a.event),
        r.description@ == description_spec(a.event),
        r.severity@ == severity_name(a.severity),
        r.detected_at@ == rfc3339(a.detected_at as int),
        r.resolved == a.resolved_at is Some,
{
    AnomalyInfo {
        id: a.id.clone(),
        event_type: owned(a.event.event_type()),
        description: a.event.description(),
        severity: a.severity.to_string(),
        detected_at: format_rfc3339(a.detected_at),
        resolved: a.is_resolved(),
    }
}

/// The list entry of an action.
pub fn action_info(a: &Action) -> (r: ActionInfo)
    requires
        in_range(a.created_at as int),
    ensures
        r.id@ == a.id@,
        r.anomaly_id@ == a.anomaly_id@,
        r.action_type@ == action_type_name(a.action_type),
        r.description@ == action_description(a.action_type),
        r.status@ == action_status_name(a.status),
        r.created_at@ == rfc3339(a.created_at as int),
        r.requires_approval == a.requires_approval,
{
    ActionInfo {
        id: a.id.clone(),
        anomaly_id: a.anomaly_id.clone(),
        action_type: owned(a.action_type.action_type()),
        description: a.action_type.description(),
        status: a.status.to_string(),
        created_at: format_rfc3339(a.created_at),
        requires_approval: a.requires_approval,
    }
}

// ---------------------------------------------------------------------------
// Agent
// ---------------------------------------------------------------------------

/// Agent status response.
#[derive(Debug)]
pub struct AgentStatusResponse {
    pub state: String,
    pub pending_tasks: usize,
    pub enabled: bool,
}

/// Task list response.
#[derive(Debug)]
pub struct AgentTasksResponse {
    pub tasks: Vec<AgentTaskInfo>,
}

/// A task in the list.
#[derive(Debug)]
pub struct AgentTaskInfo {
    pub id: String,
    pub title: String,
    pub status: String,
    pub priority: String,
    pub progress: String,
    pub tokens_used: u32,
    pub token_budget: u32,
    pub created_at: String,
}

/// Detail of a task.
#[derive(Debug)]
pub struct AgentTaskDetailResponse {
    pub id: String,
    pub title: String,
    pub description: String,
    pub status: String,
    pub priority: String,
    pub progress: String,
    pub steps: Vec<AgentStepInfo>,
    pub tokens_used: u32,
    pub token_budget: u32,
    pub created_at: String,
    pub created_by: String,
    pub result: Option<AgentTaskResultInfo>,
}

/// A step of a task.
#[derive(Debug)]
pub struct AgentStepInfo {
    pub id: String,
    pub description: String,
    pub status: String,
    pub iterations: usize,
    pub tokens_used: u32,
}

/// The result of a task.
#[derive(Debug)]
pub struct AgentTaskResultInfo {
    pub success: bool,
    pub summary: String,
    pub tokens_used: u32,
    pub duration_secs: u64,
}

/// Request to create a task.
#[derive(Debug)]
pub struct CreateTaskRequest {
    pub title: String,
    pub description: String,
    pub priority: Option<String>,
}

/// Answer to a created task.
#[derive(Debug)]
pub struct CreateTaskResponse {
    pub success: bool,
    pub task_id: String,
}

/// Input for a task waiting for it.
#[derive(Debug)]
pub struct TaskInputRequest {
    pub key: String,
    pub value: String,
}

/// Result of an agent action.
#[derive(Debug)]
pub struct AgentActionResponse {
    pub success: bool,
    pub message: String,
}

/// The name of an agent state.
pub open spec fn agent_state_name(s: AgentState) -> Seq<char> {
    match s {
        AgentState::Idle => "idle"@,
        AgentState::Processing => "processing"@,
        AgentState::Paused => "paused"@,
    }
}

/// The agent status answer.
pub fn agent_status_response(state: AgentState, pending_tasks: usize, enabled: bool) -> (r: AgentStatusResponse)
    ensures
        r.state@ == agent_state_name(state),
        r.pending_tasks == pending_tasks,
        r.enabled == enabled,
{
    let s = match state {
        AgentState::Idle => "idle",
        AgentState::Processing => "processing",
        AgentState::Paused => "paused",
    };
    AgentStatusResponse { state: owned(s), pending_tasks, enabled }
}

/// The progress of a task as `current/total` steps.
pub open spec fn progress_text(t: Task) -> Seq<char> {
    decimal(t.current_step_index as nat) + "/"@ + decimal(t.steps@.len())
}

fn progress_of(t: &Task) -> (r: String)
    ensures
        r@ == progress_text(*t),
{
    let a = u64_to_string(t.current_step_index as u64);
    let b = u64_to_string(t.steps.len() as u64);
    a.concat("/").concat(b.as_str())
}

/// The list entry of a task.
pub fn task_info(t: &Task) -> (r: AgentTaskInfo)
    requires
        in_range(t.created_at as int),
    ensures
        r.id@ == t.id@,
        r.title@ == t.title@,
        r.status@ == task_status_name(t.status),
        r.priority@ == priority_name(t.priority),
        r.progress@ == progress_text(*t),
        r.tokens_used == t.tokens_used,
        r.token_budget == t.token_budget,
        r.created_at@ == rfc3339(t.created_at as int),
{
    AgentTaskInfo {
        id: t.id.clone(),
        title: t.title.clone(),
        status: t.status.to_string(),
        priority: t.priority.to_string(),
        progress: progress_of(t),
        tokens_used: t.tokens_used,
        token_budget: t.token_budget,
        created_at: format_rfc3339(t.created_at),
    }
}

/// The entry of a step.
pub fn step_info(s: &Step) -> (r: AgentStepInfo)
    ensures
        r.id@ == s.id@,
        r.description@ == s.description@,
        r.status@ == step_status_name(s.status),
        r.iterations == s.iterations@.len(),
        r.tokens_used == s.tokens_used,
{
    AgentStepInfo {
        id: s.id.clone(),
        description: s.description.clone(),
        status: s.status.to_string(),
        iterations: s.iterations.len(),
        tokens_used: s.tokens_used,
    }
}

/// The entry of a task result.
pub fn result_info(r0: &TaskResult) -> (r: AgentTaskResultInfo)
    ensures
        r.success == r0.success,
        r.summary@ == r0.summary@,
        r.tokens_used == r0.tokens_used,
        r.duration_secs == r0.duration_secs,
{
    AgentTaskResultInfo {
        success: r0.success,
        summary: r0.summary.clone(),
        tokens_used: r0.tokens_used,
        duration_secs: r0.duration_secs,
    }
}

/// The detail of a task.
pub fn task_detail(t: &Task) -> (r: AgentTaskDetailResponse)
    requires
        in_range(t.created_at as int),
    ensures
        r.id@ == t.id@,
        r.title@ == t.title@,
        r.description@ == t.description@,
        r.status@ == task_status_name(t.status),
        r.priority@ == priority_name(t.priority),
        r.progress@ == progress_text(*t),
        r.steps@.len() == t.steps@.len(),
        forall|i: int| 0 <= i < r.steps@.len() ==> {
            &&& (#[trigger] r.steps@[i]).id@ == t.steps@[i].id@
            &&& r.steps@[i].description@ == t.steps@[i].description@
            &&& r.steps@[i].status@ == step_status_name(t.steps@[i].status)
            &&& r.steps@[i].iterations == t.steps@[i].iterations@.len()
            &&& r.steps@[i].tokens_used == t.steps@[i].tokens_used
        },
        r.tokens_used == t.tokens_used,
        r.token_budget == t.token_budget,
        r.created_at@ == rfc3339(t.created_at as int),
        r.created_by@ == t.created_by@,
        r.result is Some == t.result is Some,
        t.result matches Some(x) ==> (r.result matches Some(y) && y.success == x.success && y.summary@ == x.summary@
            && y.tokens_used == x.tokens_used && y.duration_secs == x.duration_secs),
{
    let mut steps: Vec<AgentStepInfo> = Vec::new();
    let mut i: usize = 0;
    while i < t.steps.len()
        invariant
            i <= t.steps.len(),
            steps@.len() == i,
            forall|j: int| 0 <= j < i ==> {
                &&& (#[trigger] steps@[j]).id@ == t.steps@[j].id@
                &&& steps@[j].description@ == t.steps@[j].description@
                &&& steps@[j].status@ == step_status_name(t.steps@[j].status)
                &&& steps@[j].iterations == t.steps@[j].iterations@.len()
                &&& steps@[j].tokens_used == t.steps@[j].tokens_used
            },
        decreases t.steps.len() - i,
    {
        steps.push(step_info(&t.steps[i]));
        i = i + 1;
    }
    let result = match &t.result {
        Some(x) => Some(result_info(x)),
        None => None,
    };
    AgentTaskDetailResponse {
        id: t.id.clone(),
        title: t.title.clone(),
        description: t.description.clone(),
        status: t.status.to_string(),
        priority: t.priority.to_string(),
        progress: progress_of(t),
        steps,
        tokens_used: t.tokens_used,
        token_budget: t.token_budget,
        created_at: format_rfc3339(t.created_at),
        created_by: t.created_by.clone(),
        result,
    }
}

/// The task a request names: the first whose id is the given text or starts with it.
pub open spec fn names_task(t: Task, id: Seq<char>) -> bool {
    t.id@ == id || starts_with_seq(t.id@, id)
}

/// Finds the task a request names, by full id or prefix.
pub fn find_task(tasks: &Vec<Task>, id: &str) -> (r: Option<usize>)
    ensures
        r matches Some(k) ==> k < tasks@.len() && names_task(tasks@[k as int], id@)
            && forall|j: int| 0 <= j < k ==> !names_task(#[trigger] tasks@[j], id@),
        r is None ==> forall|j: int| 0 <= j < tasks@.len() ==> !names_task(#[trigger] tasks@[j], id@),
{
    let mut i: usize = 0;
    while i < tasks.len()
        invariant
            i <= tasks.len(),
            forall|j: int| 0 <= j < i ==> !names_task(#[trigger] tasks@[j], id@),
        decreases tasks.len() - i,
    {
        if str_eq(tasks[i].id.as_str(), id) || starts_with(tasks[i].id.as_str(), id) {
            return Some(i);
        }
        i = i + 1;
    }
    None
}

/// The reply for a task id that names no task: 404.
pub fn task_not_found(id: &str) -> (r: ErrorReply)
    ensures
        r.status == 404,
        r.message@ == "Task not found: "@ + id@,
{
    ErrorReply { status: 404, message: owned("Task not found: ").concat(id) }
}

/// The priority a request asks for, by lower-cased name; an unknown name is normal.
pub open spec fn priority_of_name(name: Seq<char>) -> TaskPriority {
    let l = lowercase(name);
    if l == "low"@ {
        TaskPriority::Low
    } else if l == "high"@ {
        TaskPriority::High
    } else if l == "critical"@ {
        TaskPriority::Critical
    } else {
        TaskPriority::Normal
    }
}

/// The priority a request asks for.
pub fn requested_priority(name: &str) -> (r: TaskPriority)
    ensures
        r == priority_of_name(name@),
{
    let l = to_lowercase(name);
    if str_eq(l.as_str(), "low") {
        TaskPriority::Low
    } else if str_eq(l.as_str(), "high") {
        TaskPriority::High
    } else if str_eq(l.as_str(), "critical") {
        TaskPriority::Critical
    } else {
        TaskPriority::Normal
    }
}

/// The answer to a created task.
pub fn task_created_response(task_id: String) -> (r: CreateTaskResponse)
    ensures
        r.success,
        r.task_id == task_id,
{
    CreateTaskResponse { success: true, task_id }
}

/// The reply to a refused task operation: 400 with the error's message.
pub fn agent_error_reply(e: &AgentError) -> (r: ErrorReply)
    ensures
        r.status == 400,
        r.message@ == crate::agent::engine::agent_error_text(*e),
{
    ErrorReply { status: 400, message: e.message() }
}

/// The agent operations of the API that answer with a message.
#[derive(Clone, Copy, Debug, PartialEq, Eq, Structural)]
pub enum AgentOp {
    Cancel,
    Input,
    Pause,
    Resume,
}

/// The answer to a successful agent operation.
pub fn agent_action_response(op: AgentOp, id: &str) -> (r: AgentActionResponse)
    ensures
        r.success,
        r.message@ == match op {
            AgentOp::Cancel => "Task "@ + id@ + " cancelled"@,
            AgentOp::Input => "Input provided for task "@ + id@,
            AgentOp::Pause => "Agent engine paused"@,
            AgentOp::Resume => "Agent engine resumed"@,
        },
{
    let message = match op {
        AgentOp::Cancel => owned("Task ").concat(id).concat(" cancelled"),
        AgentOp::Input => owned("Input provided for task ").concat(id),
        AgentOp::Pause => owned("Agent engine paused"),
        AgentOp::Resume => owned("Agent engine resumed"),
    };
    AgentActionResponse { success: true, message }
}

} // verus!
