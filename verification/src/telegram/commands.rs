//! What the bot's commands ask for: each command's arguments read into a request.
//!
//! The words of the arguments are split on whitespace and the first is the action,
//! compared without regard to case.

use vstd::prelude::*;
use crate::maint::update::{parse_usize_spec, parse_usize_str};
use crate::text::{
    chars_of, find_chars, find_seq, join, join_seq, lowercase, owned, slice_chars, split_whitespace,
    str_eq, string_of, to_lowercase, trim, trim_seq, views, words,
};

verus! {

/// The words of a command's arguments.
pub open spec fn arg_words(args: Seq<char>) -> Seq<Seq<char>> {
    words(trim_seq(args))
}

/// Splits a command's arguments into words.
pub fn command_words(args: &str) -> (r: Vec<String>)
    ensures
        views(r@) == arg_words(args@),
{
    let t = trim(args);
    split_whitespace(t.as_str())
}

/// The action of a command: its first word lower-cased.
pub open spec fn action_of(parts: Seq<Seq<char>>) -> Option<Seq<char>> {
    if parts.len() > 0 { Some(lowercase(parts[0])) } else { None }
}

fn action_word(parts: &Vec<String>) -> (r: Option<String>)
    ensures
        match action_of(views(parts@)) {
            Some(a) => r matches Some(x) && x@ == a,
            None => r is None,
        },
{
    if parts.len() > 0 {
        Some(to_lowercase(parts[0].as_str()))
    } else {
        None
    }
}

fn action_is(a: &Option<String>, w: &str) -> (r: bool)
    ensures
        r == (a matches Some(x) && x@ == w@),
{
    match a {
        Some(x) => str_eq(x.as_str(), w),
        None => false,
    }
}

/// A number argument at position `idx`, or `default` when it is missing or not a number.
pub open spec fn number_arg(parts: Seq<Seq<char>>, idx: int, default: usize) -> usize {
    if parts.len() > idx {
        match parse_usize_spec(parts[idx]) {
            Some(n) => n,
            None => default,
        }
    } else {
        default
    }
}

fn number_at(parts: &Vec<String>, idx: usize, default: usize) -> (r: usize)
    ensures
        r == number_arg(views(parts@), idx as int, default),
{
    if parts.len() > idx {
        match parse_usize_str(parts[idx].as_str()) {
            Some(n) => n,
            None => default,
        }
    } else {
        default
    }
}

/// The words from position `from` on, joined by spaces.
pub open spec fn rest_from(parts: Seq<Seq<char>>, from: int) -> Seq<char> {
    join_seq(parts.skip(from), " "@)
}

fn rest_words(parts: &Vec<String>, from: usize) -> (r: String)
    requires
        from <= parts@.len(),
    ensures
        r@ == rest_from(views(parts@), from as int),
{
    let mut tail: Vec<String> = Vec::new();
    let mut i: usize = from;
    while i < parts.len()
        invariant
            from <= i <= parts.len(),
            tail@ == parts@.subrange(from as int, i as int),
        decreases parts.len() - i,
    {
        tail.push(parts[i].clone());
        i = i + 1;
        assert(tail@ =~= parts@.subrange(from as int, i as int));
    }
    assert(views(tail@) =~= views(parts@).skip(from as int));
    join(&tail, " ")
}

// ---------------------------------------------------------------------------
// /container
// ---------------------------------------------------------------------------

/// What `/container` asks for.
#[derive(Debug)]
pub enum ContainerRequest {
    Start(String),
    Stop(String),
    Restart(String),
    /// Logs of a container, with the number of lines.
    Logs { name: String, tail: usize },
    /// The usage text to answer with.
    Usage(String),
}

/// Whether `r` is what `/container` with these words asks for.
pub open spec fn container_request_ok(parts: Seq<Seq<char>>, r: ContainerRequest) -> bool {
    match action_of(parts) {
        None => r matches ContainerRequest::Usage(u) && u@ == "Usage: /container <start|stop|restart|logs> <name>"@,
        Some(a) => if a == "start"@ {
            if parts.len() >= 2 { r matches ContainerRequest::Start(n) && n@ == parts[1] }
            else { r matches ContainerRequest::Usage(u) && u@ == "Usage: /container start <name>"@ }
        } else if a == "stop"@ {
            if parts.len() >= 2 { r matches ContainerRequest::Stop(n) && n@ == parts[1] }
            else { r matches ContainerRequest::Usage(u) && u@ == "Usage: /container stop <name>"@ }
        } else if a == "restart"@ {
            if parts.len() >= 2 { r matches ContainerRequest::Restart(n) && n@ == parts[1] }
            else { r matches ContainerRequest::Usage(u) && u@ == "Usage: /container restart <name>"@ }
        } else if a == "logs"@ {
            if parts.len() >= 2 {
                r matches ContainerRequest::Logs { name, tail } && name@ == parts[1] && tail == number_arg(parts, 2, 50)
            } else {
                r matches ContainerRequest::Usage(u) && u@ == "Usage: /container logs <name>"@
            }
        } else {
            r matches ContainerRequest::Usage(u) && u@ == "Usage: /container <start|stop|restart|logs> <name>"@
        },
    }
}

/// Reads the arguments of `/container`.
pub fn container_request(args: &str) -> (r: ContainerRequest)
    ensures
        container_request_ok(arg_words(args@), r),
{
    let parts = command_words(args);
    let action = action_word(&parts);
    if action.is_none() {
        return ContainerRequest::Usage(owned("Usage: /container <start|stop|restart|logs> <name>"));
    }
    if action_is(&action, "start") {
        if parts.len() >= 2 { ContainerRequest::Start(parts[1].clone()) }
        else { ContainerRequest::Usage(owned("Usage: /container start <name>")) }
    } else if action_is(&action, "stop") {
        if parts.len() >= 2 { ContainerRequest::Stop(parts[1].clone()) }
        else { ContainerRequest::Usage(owned("Usage: /container stop <name>")) }
    } else if action_is(&action, "restart") {
        if parts.len() >= 2 { ContainerRequest::Restart(parts[1].clone()) }
        else { ContainerRequest::Usage(owned("Usage: /container restart <name>")) }
    } else if action_is(&action, "logs") {
        if parts.len() >= 2 {
            ContainerRequest::Logs { name: parts[1].clone(), tail: number_at(&parts, 2, 50) }
        } else {
            ContainerRequest::Usage(owned("Usage: /container logs <name>"))
        }
    } else {
        ContainerRequest::Usage(owned("Usage: /container <start|stop|restart|logs> <name>"))
    }
}

// ---------------------------------------------------------------------------
// /media
// ---------------------------------------------------------------------------

/// What `/media` asks for.
#[derive(Debug)]
pub enum MediaRequest {
    Status,
    Libraries,
    Sessions,
    Scan,
    Start,
    Stop,
    Restart,
    /// Logs of the Jellyfin container, with the number of lines.
    Logs(usize),
    Usage,
}

/// Whether `r` is what `/media` with these words asks for.
pub open spec fn media_request_ok(parts: Seq<Seq<char>>, r: MediaRequest) -> bool {
    match action_of(parts) {
        None => r is Status,
        Some(a) => if a == "status"@ { r is Status }
            else if a == "libraries"@ || a == "libs"@ { r is Libraries }
            else if a == "sessions"@ || a == "playing"@ { r is Sessions }
            else if a == "scan"@ { r is Scan }
            else if a == "start"@ { r is Start }
            else if a == "stop"@ { r is Stop }
            else if a == "restart"@ { r is Restart }
            else if a == "logs"@ { r matches MediaRequest::Logs(n) && n == number_arg(parts, 1, 50) }
            else { r is Usage },
    }
}

/// Reads the arguments of `/media`.
pub fn media_request(args: &str) -> (r: MediaRequest)
    ensures
        media_request_ok(arg_words(args@), r),
{
    let parts = command_words(args);
    let a = action_word(&parts);
    if a.is_none() || action_is(&a, "status") {
        MediaRequest::Status
    } else if action_is(&a, "libraries") || action_is(&a, "libs") {
        MediaRequest::Libraries
    } else if action_is(&a, "sessions") || action_is(&a, "playing") {
        MediaRequest::Sessions
    } else if action_is(&a, "scan") {
        MediaRequest::Scan
    } else if action_is(&a, "start") {
        MediaRequest::Start
    } else if action_is(&a, "stop") {
        MediaRequest::Stop
    } else if action_is(&a, "restart") {
        MediaRequest::Restart
    } else if action_is(&a, "logs") {
        MediaRequest::Logs(number_at(&parts, 1, 50))
    } else {
        MediaRequest::Usage
    }
}

// ---------------------------------------------------------------------------
// /code
// ---------------------------------------------------------------------------

/// What `/code` asks for.
#[derive(Debug)]
pub enum ClaudeRequest {
    Status,
    List,
    /// A new session in the workspace.
    New(String),
    /// Stopping the session with the id.
    Stop(String),
    /// A question to the model.
    Ask(String),
    /// The usage text to answer with.
    Usage(String),
}

/// Whether `r` is what `/code` with these words asks for.
pub open spec fn claude_request_ok(parts: Seq<Seq<char>>, r: ClaudeRequest) -> bool {
    match action_of(parts) {
        None => r is Status,
        Some(a) => if a == "status"@ { r is Status }
            else if a == "list"@ || a == "sessions"@ { r is List }
            else if a == "new"@ {
                if parts.len() >= 2 { r matches ClaudeRequest::New(w) && w@ == parts[1] }
                else { r matches ClaudeRequest::Usage(u) && u@ == "Usage: /code new <workspace>"@ }
            } else if a == "stop"@ {
                if parts.len() >= 2 { r matches ClaudeRequest::Stop(s) && s@ == parts[1] }
                else { r matches ClaudeRequest::Usage(u) && u@ == "Usage: /code stop <session_id>"@ }
            } else if a == "ask"@ {
                if parts.len() >= 2 { r matches ClaudeRequest::Ask(q) && q@ == rest_from(parts, 1) }
                else { r matches ClaudeRequest::Usage(u) && u@ == "Usage: /code ask <question>"@ }
            } else {
                r matches ClaudeRequest::Usage(u) && u@ == "Usage: /code [status|list|new <workspace>|stop <id>|ask <question>]"@
            },
    }
}

/// Reads the arguments of `/code`.
pub fn claude_request(args: &str) -> (r: ClaudeRequest)
    ensures
        claude_request_ok(arg_words(args@), r),
{
    let parts = command_words(args);
    let a = action_word(&parts);
    if a.is_none() || action_is(&a, "status") {
        ClaudeRequest::Status
    } else if action_is(&a, "list") || action_is(&a, "sessions") {
        ClaudeRequest::List
    } else if action_is(&a, "new") {
        if parts.len() >= 2 { ClaudeRequest::New(parts[1].clone()) }
        else { ClaudeRequest::Usage(owned("Usage: /code new <workspace>")) }
    } else if action_is(&a, "stop") {
        if parts.len() >= 2 { ClaudeRequest::Stop(parts[1].clone()) }
        else { ClaudeRequest::Usage(owned("Usage: /code stop <session_id>")) }
    } else if action_is(&a, "ask") {
        if parts.len() >= 2 { ClaudeRequest::Ask(rest_words(&parts, 1)) }
        else { ClaudeRequest::Usage(owned("Usage: /code ask <question>")) }
    } else {
        ClaudeRequest::Usage(owned("Usage: /code [status|list|new <workspace>|stop <id>|ask <question>]"))
    }
}

// ---------------------------------------------------------------------------
// /maint
// ---------------------------------------------------------------------------

/// What `/maint` asks for.
#[derive(Clone, Copy, Debug, PartialEq, Eq, Structural)]
pub enum MaintRequest {
    Status,
    Backup,
    Backups,
    Jobs,
    Rotate,
    Update,
    Usage,
}

/// What `/maint` with these words asks for.
pub open spec fn maint_request_of(parts: Seq<Seq<char>>) -> MaintRequest {
    match action_of(parts) {
        None => MaintRequest::Status,
        Some(a) => if a == "status"@ { MaintRequest::Status }
            else if a == "backup"@ { MaintRequest::Backup }
            else if a == "backups"@ || a == "list"@ { MaintRequest::Backups }
            else if a == "jobs"@ || a == "schedule"@ { MaintRequest::Jobs }
            else if a == "rotate"@ { MaintRequest::Rotate }
            else if a == "update"@ || a == "check"@ { MaintRequest::Update }
            else { MaintRequest::Usage },
    }
}

/// Reads the arguments of `/maint`.
pub fn maint_request(args: &str) -> (r: MaintRequest)
    ensures
        r == maint_request_of(arg_words(args@)),
{
    let parts = command_words(args);
    let a = action_word(&parts);
    if a.is_none() || action_is(&a, "status") {
        MaintRequest::Status
    } else if action_is(&a, "backup") {
        MaintRequest::Backup
    } else if action_is(&a, "backups") || action_is(&a, "list") {
        MaintRequest::Backups
    } else if action_is(&a, "jobs") || action_is(&a, "schedule") {
        MaintRequest::Jobs
    } else if action_is(&a, "rotate") {
        MaintRequest::Rotate
    } else if action_is(&a, "update") || action_is(&a, "check") {
        MaintRequest::Update
    } else {
        MaintRequest::Usage
    }
}

// ---------------------------------------------------------------------------
// /reactive
// ---------------------------------------------------------------------------

/// What `/reactive` asks for.
#[derive(Debug)]
pub enum ReactiveRequest {
    Status,
    Pause,
    Resume,
    /// The action history, with the number of entries.
    History(usize),
    /// Approval of the action with the id.
    Approve(String),
    Anomalies,
    Pending,
    /// The usage text to answer with.
    Usage(String),
}

/// Whether `r` is what `/reactive` with these words asks for.
pub open spec fn reactive_request_ok(parts: Seq<Seq<char>>, r: ReactiveRequest) -> bool {
    match action_of(parts) {
        None => r is Status,
        Some(a) => if a == "status"@ { r is Status }
            else if a == "pause"@ { r is Pause }
            else if a == "resume"@ { r is Resume }
            else if a == "history"@ { r matches ReactiveRequest::History(n) && n == number_arg(parts, 1, 10) }
            else if a == "approve"@ {
                if parts.len() >= 2 { r matches ReactiveRequest::Approve(id) && id@ == parts[1] }
                else { r matches ReactiveRequest::Usage(u) && u@ == "Usage: /reactive approve <action_id>"@ }
            } else if a == "anomalies"@ { r is Anomalies }
            else if a == "pending"@ { r is Pending }
            else {
                r matches ReactiveRequest::Usage(u) && u@ == "Usage: /reactive [status|pause|resume|history|approve|anomalies|pending]"@
            },
    }
}

/// Reads the arguments of `/reactive`.
pub fn reactive_request(args: &str) -> (r: ReactiveRequest)
    ensures
        reactive_request_ok(arg_words(args@), r),
{
    let parts = command_words(args);
    let a = action_word(&parts);
    if a.is_none() || action_is(&a, "status") {
        ReactiveRequest::Status
    } else if action_is(&a, "pause") {
        ReactiveRequest::Pause
    } else if action_is(&a, "resume") {
        ReactiveRequest::Resume
    } else if action_is(&a, "history") {
        ReactiveRequest::History(number_at(&parts, 1, 10))
    } else if action_is(&a, "approve") {
        if parts.len() >= 2 { ReactiveRequest::Approve(parts[1].clone()) }
        else { ReactiveRequest::Usage(owned("Usage: /reactive approve <action_id>")) }
    } else if action_is(&a, "anomalies") {
        ReactiveRequest::Anomalies
    } else if action_is(&a, "pending") {
        ReactiveRequest::Pending
    } else {
        ReactiveRequest::Usage(owned("Usage: /reactive [status|pause|resume|history|approve|anomalies|pending]"))
    }
}

// ---------------------------------------------------------------------------
// /agent
// ---------------------------------------------------------------------------

/// What `/agent` asks for.
#[derive(Debug)]
pub enum AgentRequest {
    Status,
    /// A new task with a title and a description.
    New { title: String, description: String },
    List,
    /// Details of the task with the id (or id prefix).
    Task(String),
    /// Cancelling the task with the id.
    Cancel(String),
    /// Input for the task with the id.
    Input { task_id: String, key: String, value: String },
    Pause,
    Resume,
    /// The usage text to answer with.
    Usage(String),
}

/// The title and description of `/agent new`: the text before and after the first
/// ` - `, or the whole text for both.
pub open spec fn title_and_description(rest: Seq<char>) -> (Seq<char>, Seq<char>) {
    match find_seq(rest, " - "@) {
        Some(i) => (rest.take(i), rest.skip(i + 3)),
        None => (rest, rest),
    }
}

/// The key and value of `/agent input`: the text before and after the first `=`.
pub open spec fn key_and_value(rest: Seq<char>) -> Option<(Seq<char>, Seq<char>)> {
    match find_seq(rest, "="@) {
        Some(i) => Some((rest.take(i), rest.skip(i + 1))),
        None => None,
    }
}

/// Whether `r` is what `/agent` with these words asks for.
pub open spec fn agent_request_ok(parts: Seq<Seq<char>>, r: AgentRequest) -> bool {
    match action_of(parts) {
        None => r is Status,
        Some(a) => if a == "status"@ { r is Status }
            else if a == "new"@ {
                let rest = rest_from(parts, 1);
                if rest.len() == 0 {
                    r matches AgentRequest::Usage(u) && u@ == "Usage: /agent new <title> - <description>"@
                } else {
                    r matches AgentRequest::New { title, description }
                        && title@ == title_and_description(rest).0 && description@ == title_and_description(rest).1
                }
            } else if a == "list"@ { r is List }
            else if a == "task"@ || a == "get"@ {
                if parts.len() >= 2 { r matches AgentRequest::Task(id) && id@ == parts[1] }
                else { r matches AgentRequest::Usage(u) && u@ == "Usage: /agent task <task_id>"@ }
            } else if a == "cancel"@ {
                if parts.len() >= 2 { r matches AgentRequest::Cancel(id) && id@ == parts[1] }
                else { r matches AgentRequest::Usage(u) && u@ == "Usage: /agent cancel <task_id>"@ }
            } else if a == "input"@ {
                if parts.len() >= 2 {
                    match key_and_value(rest_from(parts, 2)) {
                        Some((k, v)) => r matches AgentRequest::Input { task_id, key, value }
                            && task_id@ == parts[1] && key@ == k && value@ == v,
                        None => r matches AgentRequest::Usage(u) && u@ == "Usage: /agent input <task_id> <key>=<value>"@,
                    }
                } else {
                    r matches AgentRequest::Usage(u) && u@ == "Usage: /agent input <task_id> <key>=<value>"@
                }
            } else if a == "pause"@ { r is Pause }
            else if a == "resume"@ { r is Resume }
            else {
                r matches AgentRequest::Usage(u) && u@ == "Usage: /agent [status|new|list|task|cancel|input|pause|resume]"@
            },
    }
}

fn split_title(rest: &str) -> (r: (String, String))
    ensures
        r.0@ == title_and_description(rest@).0,
        r.1@ == title_and_description(rest@).1,
{
    let v = chars_of(rest);
    let mut sep: Vec<char> = Vec::new();
    sep.push(' ');
    sep.push('-');
    sep.push(' ');
    proof { reveal_strlit(" - "); }
    assert(sep@ =~= " - "@);
    match find_chars(&v, &sep) {
        Some(i) => {
            proof { crate::text::lemma_first_occurrence_unique(v@, sep@, i as int); }
            assert(i + 3 <= v.len());
            let a = slice_chars(&v, 0, i);
            let b = slice_chars(&v, i + 3, v.len());
            assert(a@ =~= rest@.take(i as int));
            assert(b@ =~= rest@.skip(i + 3));
            (string_of(a.as_slice()), string_of(b.as_slice()))
        },
        None => (owned(rest), owned(rest)),
    }
}

fn split_key(rest: &str) -> (r: Option<(String, String)>)
    ensures
        match key_and_value(rest@) {
            Some((k, v)) => r matches Some(p) && p.0@ == k && p.1@ == v,
            None => r is None,
        },
{
    let v = chars_of(rest);
    let mut sep: Vec<char> = Vec::new();
    sep.push('=');
    proof { reveal_strlit("="); }
    assert(sep@ =~= "="@);
    match find_chars(&v, &sep) {
        Some(i) => {
            proof { crate::text::lemma_first_occurrence_unique(v@, sep@, i as int); }
            assert(i + 1 <= v.len());
            let a = slice_chars(&v, 0, i);
            let b = slice_chars(&v, i + 1, v.len());
            assert(a@ =~= rest@.take(i as int));
            assert(b@ =~= rest@.skip(i + 1));
            Some((string_of(a.as_slice()), string_of(b.as_slice())))
        },
        None => None,
    }
}

/// Reads the arguments of `/agent`.
#[verifier::spinoff_prover]
#[verifier::rlimit(40)]
pub fn agent_request(args: &str) -> (r: AgentRequest)
    ensures
        agent_request_ok(arg_words(args@), r),
{
    let parts = command_words(args);
    let a = action_word(&parts);
    if a.is_none() || action_is(&a, "status") {
        AgentRequest::Status
    } else if action_is(&a, "new") {
        let rest = rest_words(&parts, 1);
        if chars_of(rest.as_str()).len() == 0 {
            AgentRequest::Usage(owned("Usage: /agent new <title> - <description>"))
        } else {
            let (title, description) = split_title(rest.as_str());
            AgentRequest::New { title, description }
        }
    } else if action_is(&a, "list") {
        AgentRequest::List
    } else if action_is(&a, "task") || action_is(&a, "get") {
        if parts.len() >= 2 { AgentRequest::Task(parts[1].clone()) }
        else { AgentRequest::Usage(owned("Usage: /agent task <task_id>")) }
    } else if action_is(&a, "cancel") {
        if parts.len() >= 2 { AgentRequest::Cancel(parts[1].clone()) }
        else { AgentRequest::Usage(owned("Usage: /agent cancel <task_id>")) }
    } else if action_is(&a, "input") {
        if parts.len() >= 2 {
            let rest = rest_words(&parts, 2);
            match split_key(rest.as_str()) {
                Some((key, value)) => AgentRequest::Input { task_id: parts[1].clone(), key, value },
                None => AgentRequest::Usage(owned("Usage: /agent input <task_id> <key>=<value>")),
            }
        } else {
            AgentRequest::Usage(owned("Usage: /agent input <task_id> <key>=<value>"))
        }
    } else if action_is(&a, "pause") {
        AgentRequest::Pause
    } else if action_is(&a, "resume") {
        AgentRequest::Resume
    } else {
        AgentRequest::Usage(owned("Usage: /agent [status|new|list|task|cancel|input|pause|resume]"))
    }
}

// ---------------------------------------------------------------------------
// Command names
// ---------------------------------------------------------------------------

/// The bot's commands.
#[derive(Clone, Copy, Debug, PartialEq, Eq, Structural)]
pub enum BotCommand {
    Help,
    Status,
    Modules,
    Metrics,
    Containers,
    /// Takes arguments.
    Container,
    /// Takes arguments.
    Media,
    /// Takes arguments.
    ClaudeSessions,
    /// Takes arguments.
    Maint,
    /// Takes arguments.
    Reactive,
    /// Takes arguments.
    Agent,
    Start,
}

/// The command a lower-case name denotes.
pub open spec fn command_named(name: Seq<char>) -> Option<BotCommand> {
    if name == "help"@ { Some(BotCommand::Help) }
    else if name == "status"@ { Some(BotCommand::Status) }
    else if name == "modules"@ { Some(BotCommand::Modules) }
    else if name == "metrics"@ { Some(BotCommand::Metrics) }
    else if name == "containers"@ { Some(BotCommand::Containers) }
    else if name == "container"@ { Some(BotCommand::Container) }
    else if name == "media"@ { Some(BotCommand::Media) }
    else if name == "code"@ { Some(BotCommand::ClaudeSessions) }
    else if name == "maint"@ { Some(BotCommand::Maint) }
    else if name == "reactive"@ { Some(BotCommand::Reactive) }
    else if name == "agent"@ { Some(BotCommand::Agent) }
    else if name == "start"@ { Some(BotCommand::Start) }
    else { None }
}

/// Whether the command takes its arguments as text.
pub open spec fn takes_text(c: BotCommand) -> bool {
    c is Container || c is Media || c is ClaudeSessions || c is Maint || c is Reactive || c is Agent
}

fn command_of_name(name: &str) -> (r: Option<BotCommand>)
    ensures
        r == command_named(name@),
{
    if str_eq(name, "help") { Some(BotCommand::Help) }
    else if str_eq(name, "status") { Some(BotCommand::Status) }
    else if str_eq(name, "modules") { Some(BotCommand::Modules) }
    else if str_eq(name, "metrics") { Some(BotCommand::Metrics) }
    else if str_eq(name, "containers") { Some(BotCommand::Containers) }
    else if str_eq(name, "container") { Some(BotCommand::Container) }
    else if str_eq(name, "media") { Some(BotCommand::Media) }
    else if str_eq(name, "code") { Some(BotCommand::ClaudeSessions) }
    else if str_eq(name, "maint") { Some(BotCommand::Maint) }
    else if str_eq(name, "reactive") { Some(BotCommand::Reactive) }
    else if str_eq(name, "agent") { Some(BotCommand::Agent) }
    else if str_eq(name, "start") { Some(BotCommand::Start) }
    else { None }
}

/// What a message asks for: it starts with `/`, the word up to the first space is
/// the command (an `@` suffix naming this bot may follow it), and the rest after
/// that space is the argument text. A command without arguments takes none.
pub open spec fn parsed_command(text: Seq<char>, bot: Seq<char>) -> Option<(BotCommand, Seq<char>)> {
    if text.len() == 0 || text[0] != '/' {
        None
    } else {
        let body = text.skip(1);
        let (word, args) = match find_seq(body, " "@) {
            Some(i) => (body.take(i), body.skip(i + 1)),
            None => (body, Seq::empty()),
        };
        let (name, mention) = match find_seq(word, "@"@) {
            Some(j) => (word.take(j), Some(word.skip(j + 1))),
            None => (word, None),
        };
        if mention matches Some(m) && m != bot {
            None
        } else {
            match command_named(name) {
                Some(c) => if !takes_text(c) && args.len() > 0 { None } else { Some((c, args)) },
                None => None,
            }
        }
    }
}

/// Reads a message as a command to the bot named `bot`.
pub fn parse_bot_command(text: &str, bot: &str) -> (r: Option<(BotCommand, String)>)
    ensures
        match parsed_command(text@, bot@) {
            Some((c, a)) => r matches Some(p) && p.0 == c && p.1@ == a,
            None => r is None,
        },
{
    let v = chars_of(text);
    if v.len() == 0 || v[0] != '/' {
        return None;
    }
    let body = slice_chars(&v, 1, v.len());
    assert(body@ =~= text@.skip(1));
    let mut space: Vec<char> = Vec::new();
    space.push(' ');
    proof { reveal_strlit(" "); }
    assert(space@ =~= " "@);
    let (word, args) = match find_chars(&body, &space) {
        Some(i) => {
            proof { crate::text::lemma_first_occurrence_unique(body@, space@, i as int); }
            assert(i + 1 <= body.len());
            let w = slice_chars(&body, 0, i);
            let a = slice_chars(&body, i + 1, body.len());
            assert(w@ =~= body@.take(i as int));
            assert(a@ =~= body@.skip(i + 1));
            (w, a)
        },
        None => {
            let a: Vec<char> = Vec::new();
            (body, a)
        },
    };
    let mut at: Vec<char> = Vec::new();
    at.push('@');
    proof { reveal_strlit("@"); }
    assert(at@ =~= "@"@);
    let name = match find_chars(&word, &at) {
        Some(j) => {
            proof { crate::text::lemma_first_occurrence_unique(word@, at@, j as int); }
            assert(j + 1 <= word.len());
            let n = slice_chars(&word, 0, j);
            let m = slice_chars(&word, j + 1, word.len());
            assert(n@ =~= word@.take(j as int));
            assert(m@ =~= word@.skip(j + 1));
            if !str_eq(string_of(m.as_slice()).as_str(), bot) {
                return None;
            }
            n
        },
        None => word,
    };
    let name_text = string_of(name.as_slice());
    match command_of_name(name_text.as_str()) {
        Some(c) => {
            let takes = match c {
                BotCommand::Container | BotCommand::Media | BotCommand::ClaudeSessions | BotCommand::Maint
                | BotCommand::Reactive | BotCommand::Agent => true,
                _ => false,
            };
            if !takes && args.len() > 0 {
                None
            } else {
                Some((c, string_of(args.as_slice())))
            }
        },
        None => None,
    }
}

/// The `/help` answer: the bot's commands with what each does.
pub fn help_text() -> (r: &'static str)
    ensures
        r@ == "Available commands:\n\n/help \u{2014} display this help text\n/status \u{2014} show system status\n/modules \u{2014} show module health\n/metrics \u{2014} show system metrics\n/containers \u{2014} list all containers\n/container \u{2014} container action: start|stop|restart|logs <name>\n/media \u{2014} media status and info\n/code \u{2014} coding session management: new|list|stop|ask\n/maint \u{2014} maintenance: status|backup|jobs|update\n/reactive \u{2014} reactive control: status|pause|resume|history|approve\n/agent \u{2014} agent tasks: new|list|status|cancel|input\n/start \u{2014} start the bot"@,
{
    "Available commands:\n\n/help \u{2014} display this help text\n/status \u{2014} show system status\n/modules \u{2014} show module health\n/metrics \u{2014} show system metrics\n/containers \u{2014} list all containers\n/container \u{2014} container action: start|stop|restart|logs <name>\n/media \u{2014} media status and info\n/code \u{2014} coding session management: new|list|stop|ask\n/maint \u{2014} maintenance: status|backup|jobs|update\n/reactive \u{2014} reactive control: status|pause|resume|history|approve\n/agent \u{2014} agent tasks: new|list|status|cancel|input\n/start \u{2014} start the bot"
}

} // verus!
