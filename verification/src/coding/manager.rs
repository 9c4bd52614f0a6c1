//! The coding module: API request defaults, reply text, module status and the
//! display form of a session.
//!
//! The HTTP client and the processes are the caller's; this module holds what
//! decides about them.

use vstd::prelude::*;
use crate::coding::session::{count_active, SessionError, SessionManager};
use crate::coding::types::{same_session, ClaudeStatus, SessionInfo, SessionStatus};
use crate::config::ClaudeConfig;
use crate::text::{decimal, join, join_seq, owned, str_eq, u64_to_string, views};

verus! {

/// Errors of the model API client.
#[derive(Debug)]
pub enum ApiError {
    /// The request failed (the client's message).
    Http(String),
    /// The API answered with an error status.
    Api { status: u16, message: String },
    /// The reply could not be decoded.
    Parse(String),
}

impl ApiError {
    /// The error message.
    pub fn message(&self) -> (r: String)
        ensures
            match self {
                ApiError::Http(e) => r@ == "HTTP request failed: "@ + e@,
                ApiError::Api { status, message } => r@ == "API error: "@ + decimal(*status as nat) + " - "@ + message@,
                ApiError::Parse(e) => r@ == "failed to parse response: "@ + e@,
            },
    {
        match self {
            ApiError::Http(e) => owned("HTTP request failed: ").concat(e.as_str()),
            ApiError::Api { status, message } => {
                let d = u64_to_string(*status as u64);
                owned("API error: ").concat(d.as_str()).concat(" - ").concat(message.as_str())
            },
            ApiError::Parse(e) => owned("failed to parse response: ").concat(e.as_str()),
        }
    }

    /// Whether the API refused the key (status 401).
    pub fn is_unauthorized(&self) -> (r: bool)
        ensures
            r == (self matches ApiError::Api { status, .. } && status == 401),
    {
        match self {
            ApiError::Api { status, .. } => *status == 401,
            _ => false,
        }
    }
}

/// Coding module errors.
#[derive(Debug)]
pub enum ClaudeError {
    /// The API call failed.
    Api(ApiError),
    /// A session operation failed.
    Session(SessionError),
    /// No API key is configured.
    NotConfigured,
}

impl ClaudeError {
    /// The error message.
    pub fn message(&self) -> (r: String)
        ensures
            match self {
                ClaudeError::NotConfigured => r@ == "module not configured"@,
                _ => true,
            },
    {
        match self {
            ClaudeError::Api(e) => {
                let m = e.message();
                owned("API error: ").concat(m.as_str())
            },
            ClaudeError::Session(e) => {
                let m = e.message();
                owned("session error: ").concat(m.as_str())
            },
            ClaudeError::NotConfigured => owned("module not configured"),
        }
    }
}

/// Token limit used when a request names none.
pub const DEFAULT_MAX_TOKENS: u32 = 4096;

/// API version header value.
pub fn api_version() -> (r: &'static str)
    ensures
        r@ == "2023-06-01"@,
{
    "2023-06-01"
}

/// Base URL of the API.
pub fn default_base_url() -> (r: &'static str)
    ensures
        r@ == "https://api.anthropic.com"@,
{
    "https://api.anthropic.com"
}

/// What the Messages API client holds: the key it sends and the server it talks to.
/// The HTTP connection itself belongs to the caller.
pub struct AnthropicClient {
    api_key: String,
    base_url: String,
}

impl AnthropicClient {
    /// The key sent with each request.
    pub closed spec fn key_of(&self) -> Seq<char> {
        self.api_key@
    }

    /// The server's base URL.
    pub closed spec fn base_of(&self) -> Seq<char> {
        self.base_url@
    }

    /// A client of the default server.
    pub fn new(api_key: &str) -> (r: AnthropicClient)
        ensures
            r.key_of() == api_key@,
            r.base_of() == "https://api.anthropic.com"@,
    {
        AnthropicClient { api_key: owned(api_key), base_url: owned(default_base_url()) }
    }

    /// A client of the server at `base_url`.
    pub fn with_base_url(api_key: &str, base_url: &str) -> (r: AnthropicClient)
        ensures
            r.key_of() == api_key@,
            r.base_of() == base_url@,
    {
        AnthropicClient { api_key: owned(api_key), base_url: owned(base_url) }
    }

    /// The server's base URL.
    pub fn base_url(&self) -> (r: &str)
        ensures
            r@ == self.base_of(),
    {
        self.base_url.as_str()
    }

    /// The key sent with each request.
    pub fn api_key(&self) -> (r: &str)
        ensures
            r@ == self.key_of(),
    {
        self.api_key.as_str()
    }

    /// Where messages are posted: the base URL followed by `/v1/messages`.
    pub fn messages_url(&self) -> (r: String)
        ensures
            r@ == self.base_of() + "/v1/messages"@,
    {
        owned(self.base_url.as_str()).concat("/v1/messages")
    }
}

/// The model of a request: the one asked for, or the configured default.
pub fn request_model<'a>(model: Option<&'a str>, default: &'a str) -> (r: &'a str)
    ensures
        match model {
            Some(m) => r@ == m@,
            None => r@ == default@,
        },
{
    match model {
        Some(m) => m,
        None => default,
    }
}

/// The token limit of a request: the one asked for, or the default.
pub fn request_max_tokens(max_tokens: Option<u32>) -> (r: u32)
    ensures
        r == match max_tokens {
            Some(m) => m,
            None => DEFAULT_MAX_TOKENS,
        },
{
    match max_tokens {
        Some(m) => m,
        None => DEFAULT_MAX_TOKENS,
    }
}

/// The texts of the content blocks of type `text`, in order.
pub open spec fn text_blocks(blocks: Seq<(String, String)>) -> Seq<String>
    decreases blocks.len(),
{
    if blocks.len() == 0 {
        Seq::empty()
    } else if blocks.last().0@ == "text"@ {
        text_blocks(blocks.drop_last()).push(blocks.last().1)
    } else {
        text_blocks(blocks.drop_last())
    }
}

/// The text of a reply: the text blocks joined by line breaks. Each block is given
/// as its type and its text.
pub fn response_text(blocks: &Vec<(String, String)>) -> (r: String)
    ensures
        r@ == join_seq(views(text_blocks(blocks@)), "\n"@),
{
    let mut texts: Vec<String> = Vec::new();
    let mut i: usize = 0;
    while i < blocks.len()
        invariant
            i <= blocks.len(),
            texts@ == text_blocks(blocks@.take(i as int)),
        decreases blocks.len() - i,
    {
        assert(blocks@.take(i + 1).drop_last() =~= blocks@.take(i as int));
        if str_eq(blocks[i].0.as_str(), "text") {
            texts.push(blocks[i].1.clone());
        }
        i = i + 1;
    }
    assert(blocks@.take(blocks@.len() as int) =~= blocks@);
    join(&texts, "\n")
}

/// The status word of a session in listings.
pub open spec fn session_indicator(s: SessionStatus) -> Seq<char> {
    match s {
        SessionStatus::Running => "RUN"@,
        SessionStatus::Starting => "START"@,
        SessionStatus::Stopping => "STOP"@,
        SessionStatus::Stopped => "DONE"@,
        SessionStatus::Error => "ERR"@,
    }
}

/// A session for display: status word, id, workspace and process id when there is one.
pub open spec fn session_line(s: SessionInfo) -> Seq<char> {
    session_indicator(s.status) + " "@ + s.id@ + " "@ + s.workspace@ + match s.pid {
        Some(p) => " (PID "@ + decimal(p as nat) + ")"@,
        None => Seq::empty(),
    }
}

/// Formats a session for display.
pub fn format_session(session: &SessionInfo) -> (r: String)
    ensures
        r@ == session_line(*session),
{
    let indicator = match session.status {
        SessionStatus::Running => "RUN",
        SessionStatus::Starting => "START",
        SessionStatus::Stopping => "STOP",
        SessionStatus::Stopped => "DONE",
        SessionStatus::Error => "ERR",
    };
    let pid_info = match session.pid {
        Some(p) => {
            let d = u64_to_string(p as u64);
            owned(" (PID ").concat(d.as_str()).concat(")")
        },
        None => String::new(),
    };
    owned(indicator).concat(" ").concat(session.id.as_str()).concat(" ").concat(session.workspace.as_str()).concat(
        pid_info.as_str(),
    )
}

/// The coding module: its configuration, whether an API key was found, and the sessions.
pub struct ClaudeManager {
    config: ClaudeConfig,
    api_configured: bool,
    session_manager: SessionManager,
}

impl ClaudeManager {
    /// The module configuration.
    pub closed spec fn config_of(&self) -> ClaudeConfig {
        self.config
    }

    /// Whether an API key was given.
    pub closed spec fn has_key(&self) -> bool {
        self.api_configured
    }

    /// The sessions.
    pub closed spec fn sessions_of(&self) -> SessionManager {
        self.session_manager
    }

    /// A module from its configuration and the API key, if one was found.
    pub fn new(config: ClaudeConfig, api_key: Option<String>) -> (r: ClaudeManager)
        ensures
            r.config_of() == config,
            r.has_key() == api_key is Some,
            r.sessions_of().session_list().len() == 0,
            r.sessions_of().base() == config.workspace_dir@,
            r.sessions_of().limit() == config.max_sessions,
    {
        let session_manager = SessionManager::new(config.workspace_dir.as_str(), config.max_sessions);
        ClaudeManager { config, api_configured: api_key.is_some(), session_manager }
    }

    /// Whether the API client is configured.
    pub fn has_api_client(&self) -> (r: bool)
        ensures
            r == self.has_key(),
    {
        self.api_configured
    }

    /// The configuration.
    pub fn config(&self) -> (r: &ClaudeConfig)
        ensures
            *r == self.config_of(),
    {
        &self.config
    }

    /// The session table.
    pub fn session_manager(&self) -> (r: &SessionManager)
        ensures
            *r == self.sessions_of(),
    {
        &self.session_manager
    }

    /// The session table, for changes.
    pub fn session_manager_mut(&mut self) -> (r: &mut SessionManager)
        ensures
            *r == old(self).sessions_of(),
            final(self).sessions_of() == *final(r),
            final(self).config_of() == old(self).config_of(),
            final(self).has_key() == old(self).has_key(),
    {
        &mut self.session_manager
    }

    /// Checks that the API can be asked: `NotConfigured` without a key.
    pub fn require_api(&self) -> (r: Result<(), ClaudeError>)
        ensures
            r is Ok <==> self.has_key(),
            r is Err ==> r matches Err(ClaudeError::NotConfigured),
    {
        if self.api_configured {
            Ok(())
        } else {
            Err(ClaudeError::NotConfigured)
        }
    }

    /// The module status.
    pub fn status(&self) -> (r: ClaudeStatus)
        ensures
            r.enabled == self.config_of().enabled,
            r.api_key_configured == self.has_key(),
            r.active_sessions == count_active(self.sessions_of().session_list()),
            r.max_sessions == self.config_of().max_sessions,
            r.workspace_dir@ == self.config_of().workspace_dir@,
            r.sessions@.len() == self.sessions_of().session_list().len(),
            forall|i: int| 0 <= i < r.sessions@.len() ==> same_session(#[trigger] r.sessions@[i], self.sessions_of().session_list()[i]),
    {
        let sessions = self.session_manager.list_sessions();
        let active = self.session_manager.active_count();
        ClaudeStatus {
            enabled: self.config.enabled,
            api_key_configured: self.api_configured,
            active_sessions: active,
            max_sessions: self.config.max_sessions,
            workspace_dir: self.config.workspace_dir.clone(),
            sessions,
        }
    }
}

} // verus!
