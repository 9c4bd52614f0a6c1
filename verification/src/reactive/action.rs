//! Action execution: what may run, what each outcome is reported as, and how an
//! action's record follows its execution.
//!
//! The side effects themselves (restarting a container, spawning a command,
//! waiting out the verification delay) are the caller's; this module decides
//! everything around them.

use vstd::prelude::*;
use vstd::string::StringSliceAdditionalSpecFns;
use vstd::utf8::{decode_utf8, encode_utf8};
use crate::reactive::types::{can_retry_spec, Action, ActionStatus, ActionType};
use crate::server::types::{ContainerInfo, ContainerStatus};
use crate::text::{contains, contains_seq, decimal, join, join_seq, lowercase, owned, signed_decimal, str_eq,
    to_lowercase, u64_to_string, i64_to_string, views};

verus! {

/// Errors of action execution.
#[derive(Debug)]
pub enum ExecutorError {
    /// The action timed out after the given seconds.
    Timeout(u64),
    /// The action failed.
    ExecutionFailed(String),
    /// The action ran but its effect could not be confirmed.
    VerificationFailed(String),
    /// No container manager is configured.
    NoContainerManager,
    /// No maintenance manager is configured.
    NoMaintenanceManager,
    /// The action was cancelled.
    Cancelled,
    /// The command contains a blocked fragment (given).
    CommandBlocked(String),
}

/// The message of an executor error, as `Display` renders it.
pub open spec fn executor_error_text(e: ExecutorError) -> Seq<char> {
    match e {
        ExecutorError::Timeout(s) => "action timed out after "@ + decimal(s as nat) + " seconds"@,
        ExecutorError::ExecutionFailed(m) => "action execution failed: "@ + m@,
        ExecutorError::VerificationFailed(m) => "verification failed: "@ + m@,
        ExecutorError::NoContainerManager => "container manager not available"@,
        ExecutorError::NoMaintenanceManager => "maintenance manager not available"@,
        ExecutorError::Cancelled => "action cancelled"@,
        ExecutorError::CommandBlocked(b) => "command blocked by policy: "@ + b@,
    }
}

impl ExecutorError {
    /// The error's message.
    pub fn message(&self) -> (r: String)
        ensures
            r@ == executor_error_text(*self),
    {
        match self {
            ExecutorError::Timeout(s) => owned("action timed out after ").concat(u64_to_string(*s).as_str()).concat(" seconds"),
            ExecutorError::ExecutionFailed(m) => owned("action execution failed: ").concat(m.as_str()),
            ExecutorError::VerificationFailed(m) => owned("verification failed: ").concat(m.as_str()),
            ExecutorError::NoContainerManager => owned("container manager not available"),
            ExecutorError::NoMaintenanceManager => owned("maintenance manager not available"),
            ExecutorError::Cancelled => owned("action cancelled"),
            ExecutorError::CommandBlocked(b) => owned("command blocked by policy: ").concat(b.as_str()),
        }
    }
}

/// Result of action execution.
#[derive(Debug)]
pub struct ExecutionResult {
    /// Whether the action succeeded.
    pub success: bool,
    /// Result message or error.
    pub message: String,
    /// How long the action took, in milliseconds.
    pub duration_ms: u64,
    /// Whether verification passed.
    pub verified: bool,
}

/// The command line checked against the blocklist: the command, a space, and the
/// arguments joined by spaces.
pub open spec fn full_command(command: Seq<char>, args: Seq<Seq<char>>) -> Seq<char> {
    command + " "@ + join_seq(args, " "@)
}

/// Whether blocklist entry `i` occurs, ignoring case, in the command line.
pub open spec fn blocks(list: Seq<Seq<char>>, i: int, line: Seq<char>) -> bool {
    contains_seq(lowercase(line), lowercase(list[i]))
}

/// The action executor's own settings.
pub struct ActionExecutor {
    /// Default command timeout in seconds.
    default_timeout_secs: u64,
    /// Verification delay after an action, in seconds.
    verification_delay_secs: u64,
    /// Command fragments that are never run.
    blocked_commands: Vec<String>,
}

/// The fragments blocked by default.
pub open spec fn default_blocked_spec() -> Seq<Seq<char>> {
    seq!["rm -rf"@, "rm -r /"@, "dd if="@, "mkfs"@, "chmod 777"@]
}

impl ActionExecutor {
    /// The blocked fragments.
    pub closed spec fn blocked(self) -> Seq<Seq<char>> {
        views(self.blocked_commands@)
    }

    /// The default command timeout in seconds.
    pub closed spec fn timeout_secs(self) -> u64 {
        self.default_timeout_secs
    }

    /// The verification delay in seconds.
    pub closed spec fn delay_secs(self) -> u64 {
        self.verification_delay_secs
    }

    /// An executor with a 60-second default timeout, a 5-second verification delay
    /// and the default blocklist.
    pub fn new() -> (r: ActionExecutor)
        ensures
            r.blocked() == default_blocked_spec(),
            r.timeout_secs() == 60,
            r.delay_secs() == 5,
    {
        let mut v: Vec<String> = Vec::new();
        v.push(owned("rm -rf"));
        v.push(owned("rm -r /"));
        v.push(owned("dd if="));
        v.push(owned("mkfs"));
        v.push(owned("chmod 777"));
        assert(views(v@) =~= default_blocked_spec());
        ActionExecutor { default_timeout_secs: 60, verification_delay_secs: 5, blocked_commands: v }
    }

    /// Replaces the blocklist.
    pub fn set_blocked_commands(&mut self, commands: Vec<String>)
        ensures
            final(self).blocked() == views(commands@),
            final(self).timeout_secs() == old(self).timeout_secs(),
            final(self).delay_secs() == old(self).delay_secs(),
    {
        self.blocked_commands = commands;
    }

    /// The verification delay in seconds.
    pub fn verification_delay_secs(&self) -> (r: u64)
        ensures
            r == self.delay_secs(),
    {
        self.verification_delay_secs
    }

    /// The default command timeout in seconds.
    pub fn default_timeout_secs(&self) -> (r: u64)
        ensures
            r == self.timeout_secs(),
    {
        self.default_timeout_secs
    }

    /// Refuses a command whose command line contains, ignoring case, a blocked
    /// fragment; the error names the first such fragment.
    pub fn check_command(&self, command: &str, args: &Vec<String>) -> (r: Result<(), ExecutorError>)
        ensures
            ({
                let line = full_command(command@, views(args@));
                match r {
                    Ok(()) => forall|i: int| 0 <= i < self.blocked().len() ==> !#[trigger] blocks(self.blocked(), i, line),
                    Err(e) => exists|i: int| 0 <= i < self.blocked().len() && blocks(self.blocked(), i, line)
                        && (forall|j: int| 0 <= j < i ==> !#[trigger] blocks(self.blocked(), j, line))
                        && (e matches ExecutorError::CommandBlocked(b) && b@ == self.blocked()[i]),
                }
            }),
    {
        let full = owned(command).concat(" ").concat(join(args, " ").as_str());
        let lower = to_lowercase(full.as_str());
        let ghost line = full_command(command@, views(args@));
        let mut i: usize = 0;
        while i < self.blocked_commands.len()
            invariant
                i <= self.blocked_commands.len(),
                line == full_command(command@, views(args@)),
                full@ == line,
                lower@ == lowercase(line),
                self.blocked().len() == self.blocked_commands@.len(),
                forall|j: int| 0 <= j < i ==> !#[trigger] blocks(self.blocked(), j, line),
            decreases self.blocked_commands.len() - i,
        {
            let b = to_lowercase(self.blocked_commands[i].as_str());
            assert(self.blocked()[i as int] == self.blocked_commands@[i as int]@);
            if contains(lower.as_str(), b.as_str()) {
                assert(blocks(self.blocked(), i as int, line));
                return Err(ExecutorError::CommandBlocked(self.blocked_commands[i].clone()));
            }
            i = i + 1;
        }
        Ok(())
    }
}

/// What a restart reports: success, or the failure with the runtime's error.
pub fn restart_outcome(name: &str, error: Option<&str>) -> (r: Result<String, ExecutorError>)
    ensures
        match error {
            None => r matches Ok(m) && m@ == "Container '"@ + name@ + "' restarted"@,
            Some(e) => r matches Err(ExecutorError::ExecutionFailed(m))
                && m@ == "Failed to restart container '"@ + name@ + "': "@ + e@,
        },
{
    match error {
        None => Ok(owned("Container '").concat(name).concat("' restarted")),
        Some(e) => Err(ExecutorError::ExecutionFailed(
            owned("Failed to restart container '").concat(name).concat("': ").concat(e),
        )),
    }
}

/// What a log rotation reports.
pub fn rotation_outcome(rotated: Result<(u64, u64), &str>) -> (r: Result<String, ExecutorError>)
    ensures
        match rotated {
            Ok((files, deleted)) => r matches Ok(m)
                && m@ == "Rotated "@ + decimal(files as nat) + " files, deleted "@ + decimal(deleted as nat) + " old files"@,
            Err(e) => r matches Err(ExecutorError::ExecutionFailed(m)) && m@ == "Failed to rotate logs: "@ + e@,
        },
{
    match rotated {
        Ok((files, deleted)) => Ok(owned("Rotated ").concat(u64_to_string(files).as_str()).concat(" files, deleted ")
            .concat(u64_to_string(deleted).as_str()).concat(" old files")),
        Err(e) => Err(ExecutorError::ExecutionFailed(owned("Failed to rotate logs: ").concat(e))),
    }
}

/// What a backup reports.
pub fn backup_outcome(created: Result<&str, &str>) -> (r: Result<String, ExecutorError>)
    ensures
        match created {
            Ok(name) => r matches Ok(m) && m@ == "Backup created: "@ + name@,
            Err(e) => r matches Err(ExecutorError::ExecutionFailed(m)) && m@ == "Failed to create backup: "@ + e@,
        },
{
    match created {
        Ok(name) => Ok(owned("Backup created: ").concat(name)),
        Err(e) => Err(ExecutorError::ExecutionFailed(owned("Failed to create backup: ").concat(e))),
    }
}

/// What a self-update reports: a failed `git pull`, else a failed `cargo build`,
/// each with its error output; otherwise that a restart applies the update.
pub fn self_update_outcome(pull: Result<(), &str>, build: Result<(), &str>) -> (r: Result<String, ExecutorError>)
    ensures
        match pull {
            Err(e) => r matches Err(ExecutorError::ExecutionFailed(m)) && m@ == "Git pull failed: "@ + e@,
            Ok(_) => match build {
                Err(e) => r matches Err(ExecutorError::ExecutionFailed(m)) && m@ == "Cargo build failed: "@ + e@,
                Ok(_) => r matches Ok(m) && m@ == "Self-update complete. Restart required to apply changes."@,
            },
        },
{
    match pull {
        Err(e) => Err(ExecutorError::ExecutionFailed(owned("Git pull failed: ").concat(e))),
        Ok(_) => match build {
            Err(e) => Err(ExecutorError::ExecutionFailed(owned("Cargo build failed: ").concat(e))),
            Ok(_) => Ok(owned("Self-update complete. Restart required to apply changes.")),
        },
    }
}

/// What a notification reports: delivered through the callback, or only logged.
pub fn notify_outcome(message: &str, delivered: bool) -> (r: String)
    ensures
        r@ == (if delivered { "User notified: "@ } else { "Notification logged: "@ }) + message@,
{
    if delivered {
        owned("User notified: ").concat(message)
    } else {
        owned("Notification logged: ").concat(message)
    }
}

/// The text sent when an anomaly is escalated to a human.
pub fn escalation_text(reason: &str) -> (r: String)
    ensures
        r@ == "[ESCALATION REQUIRED] "@ + reason@,
{
    owned("[ESCALATION REQUIRED] ").concat(reason)
}

/// What an escalation reports: delivered through the callback, or only logged.
pub fn escalate_outcome(reason: &str, delivered: bool) -> (r: String)
    ensures
        r@ == (if delivered { "Escalated to human: "@ } else { "Escalation logged: "@ }) + reason@,
{
    if delivered {
        owned("Escalated to human: ").concat(reason)
    } else {
        owned("Escalation logged: ").concat(reason)
    }
}

/// What a finished command reports: its output (the first 200 bytes and `...`
/// when longer) on success, its exit code (`-1` when killed by a signal) and
/// error output on failure.
pub fn command_outcome(success: bool, stdout: &str, stderr: &str, code: Option<i32>) -> (r: Result<String, ExecutorError>)
    requires
        success && stdout.len() > 200 ==> vstd::utf8::is_char_boundary(stdout.spec_bytes(), 200),
    ensures
        success ==> (r matches Ok(m) && (if stdout.len() > 200 {
            m@ == "Command succeeded: "@ + decode_utf8(stdout.spec_bytes().subrange(0, 200)) + "..."@
        } else {
            m@ == "Command succeeded: "@ + stdout@
        })),
        !success ==> (r matches Err(ExecutorError::ExecutionFailed(m))
            && m@ == "Command failed (exit "@ + signed_decimal(match code { Some(c) => c as int, None => -1 }) + "): "@ + stderr@),
{
    if success {
        if stdout.len() > 200 {
            let (head, _) = stdout.split_at(200);
            proof {
                vstd::utf8::encode_utf8_decode_utf8(head@);
                assert(encode_utf8(head@) =~= stdout.spec_bytes().subrange(0, 200));
                assert(decode_utf8(stdout.spec_bytes().subrange(0, 200)) == head@);
            }
            Ok(owned("Command succeeded: ").concat(head).concat("..."))
        } else {
            Ok(owned("Command succeeded: ").concat(stdout))
        }
    } else {
        let c: i64 = match code {
            Some(c) => c as i64,
            None => -1,
        };
        Err(ExecutorError::ExecutionFailed(
            owned("Command failed (exit ").concat(i64_to_string(c).as_str()).concat("): ").concat(stderr),
        ))
    }
}

/// Whether an action's effect is taken as confirmed without looking: everything
/// but a container restart, which is confirmed by the container running.
pub open spec fn verified_without_check(t: ActionType) -> bool {
    !(t is RestartContainer)
}

/// How an action's effect is confirmed once it ran.
#[derive(Debug)]
pub enum Verification {
    /// The action failed: there is nothing to confirm.
    NotNeeded,
    /// Wait the verification delay, then take the effect as confirmed.
    AfterDelay,
    /// Wait the verification delay, then look for the named container running.
    ContainerRunning(String),
}

/// How to confirm an action of this type that succeeded or failed: a failed one
/// is not looked at; a container restart is confirmed by the container running;
/// any other effect is taken as confirmed after the delay.
pub fn verification_for(succeeded: bool, t: &ActionType) -> (r: Verification)
    ensures
        !succeeded ==> r is NotNeeded,
        succeeded ==> match t {
            ActionType::RestartContainer { name } => r matches Verification::ContainerRunning(n) && n@ == name@,
            _ => r is AfterDelay,
        },
{
    if !succeeded {
        return Verification::NotNeeded;
    }
    match t {
        ActionType::RestartContainer { name } => Verification::ContainerRunning(name.clone()),
        _ => Verification::AfterDelay,
    }
}

/// Whether the confirmation holds, given the container listing taken after the
/// delay (when the containers could be listed).
pub fn verification_holds(v: &Verification, list: Option<&Vec<ContainerInfo>>) -> (r: bool)
    ensures
        match v {
            Verification::NotNeeded => !r,
            Verification::AfterDelay => r,
            Verification::ContainerRunning(name) => r == (list matches Some(l) && exists|i: int| 0 <= i < l@.len()
                && (#[trigger] l@[i]).name@ == name@ && l@[i].status == ContainerStatus::Running),
        },
{
    match v {
        Verification::NotNeeded => false,
        Verification::AfterDelay => true,
        Verification::ContainerRunning(name) => restart_verified(name.as_str(), list),
    }
}

/// Whether the listing shows the container running.
pub fn restart_verified(name: &str, list: Option<&Vec<ContainerInfo>>) -> (r: bool)
    ensures
        r == (list matches Some(l) && exists|i: int| 0 <= i < l@.len()
            && (#[trigger] l@[i]).name@ == name@ && l@[i].status == ContainerStatus::Running),
{
    match list {
        None => false,
        Some(l) => {
            let mut i: usize = 0;
            while i < l.len()
                invariant
                    i <= l.len(),
                    list == Some(l),
                    forall|j: int| 0 <= j < i ==> !((#[trigger] l@[j]).name@ == name@ && l@[j].status == ContainerStatus::Running),
                decreases l.len() - i,
            {
                if str_eq(l[i].name.as_str(), name) && l[i].status.is_running() {
                    assert((l@[i as int]).name@ == name@ && l@[i as int].status == ContainerStatus::Running);
                    return true;
                }
                i = i + 1;
            }
            false
        },
    }
}

/// Settles an executed action: a successful operation whose effect is confirmed
/// completes it; an unconfirmed one fails it as a verification failure; a failed
/// operation fails it with the error's message.
pub fn conclude(action: &mut Action, outcome: Result<String, ExecutorError>, verified: bool, duration_ms: u64) -> (r: ExecutionResult)
    requires
        old(action).retries < u32::MAX,
    ensures
        match outcome {
            Ok(m) => if verified {
                &&& r.success && r.verified && r.message@ == m@
                &&& *final(action) == (Action { status: ActionStatus::Completed, result: final(action).result, ..*old(action) })
                &&& final(action).result matches Some(x) && x@ == m@
            } else {
                &&& !r.success && !r.verified && r.message@ == "Verification failed after: "@ + m@
                &&& *final(action) == (Action {
                    status: ActionStatus::Failed,
                    result: final(action).result,
                    retries: (old(action).retries + 1) as u32,
                    ..*old(action)
                })
                &&& final(action).result matches Some(x) && x@ == r.message@
            },
            Err(e) => {
                &&& !r.success && !r.verified && r.message@ == executor_error_text(e)
                &&& *final(action) == (Action {
                    status: ActionStatus::Failed,
                    result: final(action).result,
                    retries: (old(action).retries + 1) as u32,
                    ..*old(action)
                })
                &&& final(action).result matches Some(x) && x@ == r.message@
            },
        },
        r.duration_ms == duration_ms,
{
    match outcome {
        Ok(message) => {
            action.start_verification();
            if verified {
                action.complete(message.as_str());
                ExecutionResult { success: true, message, duration_ms, verified: true }
            } else {
                let error_msg = owned("Verification failed after: ").concat(message.as_str());
                action.fail(error_msg.as_str());
                ExecutionResult { success: false, message: error_msg, duration_ms, verified: false }
            }
        },
        Err(e) => {
            let error_msg = e.message();
            action.fail(error_msg.as_str());
            ExecutionResult { success: false, message: error_msg, duration_ms, verified: false }
        },
    }
}

} // verus!
