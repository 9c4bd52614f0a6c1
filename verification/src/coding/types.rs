//! Sessions, messages and module status of the coding integration.

use vstd::prelude::*;
use crate::clock::{in_range, now_millis};
use crate::text::{clone_opt_string, owned};

verus! {

/// Status of a coding session.
#[derive(Clone, Copy, Debug, PartialEq, Eq, Structural)]
pub enum SessionStatus {
    /// Session is starting up.
    Starting,
    /// Session is running and ready.
    Running,
    /// Session is stopping.
    Stopping,
    /// Session has stopped.
    Stopped,
    /// Session encountered an error.
    Error,
}

/// The lower-case name of a session status.
pub open spec fn session_status_name(s: SessionStatus) -> Seq<char> {
    match s {
        SessionStatus::Starting => "starting"@,
        SessionStatus::Running => "running"@,
        SessionStatus::Stopping => "stopping"@,
        SessionStatus::Stopped => "stopped"@,
        SessionStatus::Error => "error"@,
    }
}

impl SessionStatus {
    /// A session is active while it is starting or running.
    pub open spec fn active(self) -> bool {
        self is Starting || self is Running
    }

    /// Whether the session is active (starting or running).
    pub fn is_active(&self) -> (r: bool)
        ensures
            r == self.active(),
    {
        match self {
            SessionStatus::Starting | SessionStatus::Running => true,
            _ => false,
        }
    }

    /// The status name.
    pub fn as_str(&self) -> (r: &'static str)
        ensures
            r@ == session_status_name(*self),
    {
        match self {
            SessionStatus::Starting => "starting",
            SessionStatus::Running => "running",
            SessionStatus::Stopping => "stopping",
            SessionStatus::Stopped => "stopped",
            SessionStatus::Error => "error",
        }
    }

    /// The status name as an owned string (what `Display` prints).
    pub fn to_string(&self) -> (r: String)
        ensures
            r@ == session_status_name(*self),
    {
        owned(self.as_str())
    }
}

/// Information about a coding session.
#[derive(Debug)]
pub struct SessionInfo {
    /// Unique session identifier.
    pub id: String,
    /// Workspace directory of the session.
    pub workspace: String,
    /// Current status.
    pub status: SessionStatus,
    /// Process id while running.
    pub pid: Option<u32>,
    /// When the session was created (milliseconds since the epoch).
    pub created_at: i64,
    /// When the session was last active (milliseconds since the epoch).
    pub last_active: i64,
    /// Error message when the status is `Error`.
    pub error: Option<String>,
}

/// Two session records that agree in every field.
pub open spec fn same_session(a: SessionInfo, b: SessionInfo) -> bool {
    &&& a.id@ == b.id@
    &&& a.workspace@ == b.workspace@
    &&& a.status == b.status
    &&& a.pid == b.pid
    &&& a.created_at == b.created_at
    &&& a.last_active == b.last_active
    &&& a.error == b.error
}

impl SessionInfo {
    /// A session record created at `now`: starting, without process or error.
    pub fn new_at(id: String, workspace: String, now: i64) -> (r: SessionInfo)
        ensures
            r.id == id,
            r.workspace == workspace,
            r.status == SessionStatus::Starting,
            r.pid is None,
            r.created_at == now,
            r.last_active == now,
            r.error is None,
    {
        SessionInfo {
            id,
            workspace,
            status: SessionStatus::Starting,
            pid: None,
            created_at: now,
            last_active: now,
            error: None,
        }
    }

    /// A session record created now.
    pub fn new(id: String, workspace: String) -> (r: SessionInfo)
        ensures
            r.id == id,
            r.workspace == workspace,
            r.status == SessionStatus::Starting,
            r.pid is None,
            r.created_at == r.last_active,
            in_range(r.created_at as int),
            r.error is None,
    {
        SessionInfo::new_at(id, workspace, now_millis())
    }

    /// Marks the session running with a process id, at `now`.
    pub fn set_running_at(&mut self, pid: u32, now: i64)
        ensures
            final(self).status == SessionStatus::Running,
            final(self).pid == Some(pid),
            final(self).last_active == now,
            final(self).id == old(self).id,
            final(self).workspace == old(self).workspace,
            final(self).created_at == old(self).created_at,
            final(self).error == old(self).error,
    {
        self.status = SessionStatus::Running;
        self.pid = Some(pid);
        self.last_active = now;
    }

    /// Marks the session running with a process id, now.
    pub fn set_running(&mut self, pid: u32)
        ensures
            final(self).status == SessionStatus::Running,
            final(self).pid == Some(pid),
            in_range(final(self).last_active as int),
            final(self).id == old(self).id,
            final(self).workspace == old(self).workspace,
            final(self).created_at == old(self).created_at,
            final(self).error == old(self).error,
    {
        self.set_running_at(pid, now_millis());
    }

    /// Marks the session stopped, at `now`.
    pub fn set_stopped_at(&mut self, now: i64)
        ensures
            final(self).status == SessionStatus::Stopped,
            final(self).pid is None,
            final(self).last_active == now,
            final(self).id == old(self).id,
            final(self).workspace == old(self).workspace,
            final(self).created_at == old(self).created_at,
            final(self).error == old(self).error,
    {
        self.status = SessionStatus::Stopped;
        self.pid = None;
        self.last_active = now;
    }

    /// Marks the session stopped, now.
    pub fn set_stopped(&mut self)
        ensures
            final(self).status == SessionStatus::Stopped,
            final(self).pid is None,
            in_range(final(self).last_active as int),
            final(self).id == old(self).id,
            final(self).workspace == old(self).workspace,
            final(self).created_at == old(self).created_at,
            final(self).error == old(self).error,
    {
        self.set_stopped_at(now_millis());
    }

    /// Marks the session failed with a message, at `now`.
    pub fn set_error_at(&mut self, error: String, now: i64)
        ensures
            final(self).status == SessionStatus::Error,
            final(self).pid is None,
            final(self).error == Some(error),
            final(self).last_active == now,
            final(self).id == old(self).id,
            final(self).workspace == old(self).workspace,
            final(self).created_at == old(self).created_at,
    {
        self.status = SessionStatus::Error;
        self.pid = None;
        self.error = Some(error);
        self.last_active = now;
    }

    /// Marks the session failed with a message, now.
    pub fn set_error(&mut self, error: String)
        ensures
            final(self).status == SessionStatus::Error,
            final(self).pid is None,
            final(self).error == Some(error),
            in_range(final(self).last_active as int),
            final(self).id == old(self).id,
            final(self).workspace == old(self).workspace,
            final(self).created_at == old(self).created_at,
    {
        self.set_error_at(error, now_millis());
    }

    /// A copy of the record.
    pub fn duplicate(&self) -> (r: SessionInfo)
        ensures
            same_session(r, *self),
    {
        SessionInfo {
            id: self.id.clone(),
            workspace: self.workspace.clone(),
            status: self.status,
            pid: self.pid,
            created_at: self.created_at,
            last_active: self.last_active,
            error: clone_opt_string(&self.error),
        }
    }
}

/// Overall coding module status.
#[derive(Debug)]
pub struct ClaudeStatus {
    /// Whether the module is enabled.
    pub enabled: bool,
    /// Whether the model API key is configured.
    pub api_key_configured: bool,
    /// Number of active sessions.
    pub active_sessions: usize,
    /// Maximum allowed sessions.
    pub max_sessions: usize,
    /// Workspace directory.
    pub workspace_dir: String,
    /// All sessions.
    pub sessions: Vec<SessionInfo>,
}

/// Response from sending a message to the model API.
#[derive(Debug)]
pub struct MessageResponse {
    /// Response id.
    pub id: String,
    /// Model used.
    pub model: String,
    /// Response text.
    pub content: String,
    /// Input tokens used.
    pub input_tokens: u32,
    /// Output tokens used.
    pub output_tokens: u32,
    /// Stop reason.
    pub stop_reason: Option<String>,
}

/// Message role in API requests.
#[derive(Clone, Copy, Debug, PartialEq, Eq, Structural)]
pub enum MessageRole {
    User,
    Assistant,
}

/// A message of a conversation.
#[derive(Debug)]
pub struct Message {
    pub role: MessageRole,
    pub content: String,
}

impl Message {
    /// A user message.
    pub fn user(content: &str) -> (r: Message)
        ensures
            r.role == MessageRole::User,
            r.content@ == content@,
    {
        Message { role: MessageRole::User, content: owned(content) }
    }

    /// An assistant message.
    pub fn assistant(content: &str) -> (r: Message)
        ensures
            r.role == MessageRole::Assistant,
            r.content@ == content@,
    {
        Message { role: MessageRole::Assistant, content: owned(content) }
    }
}

} // verus!
