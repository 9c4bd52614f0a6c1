//! Running a step by Thought, Action, Observation: the safety policy for commands,
//! the texts of each phase, and how an iteration's outcome updates the step.
//!
//! Running commands, asking the model and operating containers are the caller's.

use vstd::prelude::*;
use crate::agent::types::{Step, StepIteration, StepStatus, StepType, TaskContext};
use crate::text::{contains, contains_seq, decimal, join, join_seq, owned, str_eq, truncatable, truncate_str, truncated,
    u64_to_string, views};

verus! {

/// Errors of step execution.
#[derive(Debug)]
pub enum ExecutorError {
    StepFailed(String),
    CommandError(String),
    ClaudeApi(String),
    ContainerError(String),
    Timeout,
    UserInputRequired,
    TokenBudgetExceeded,
    CommandBlocked(String),
}

/// The message of an execution error, as `Display` renders it.
pub open spec fn agent_executor_error_text(e: ExecutorError) -> Seq<char> {
    match e {
        ExecutorError::StepFailed(m) => "Step execution failed: "@ + m@,
        ExecutorError::CommandError(m) => "Command execution error: "@ + m@,
        ExecutorError::ClaudeApi(m) => "Model API error: "@ + m@,
        ExecutorError::ContainerError(m) => "Container operation error: "@ + m@,
        ExecutorError::Timeout => "Timeout exceeded"@,
        ExecutorError::UserInputRequired => "User input required"@,
        ExecutorError::TokenBudgetExceeded => "Token budget exceeded"@,
        ExecutorError::CommandBlocked(m) => "Command blocked by safety policy: "@ + m@,
    }
}

impl ExecutorError {
    /// The error's message.
    pub fn message(&self) -> (r: String)
        ensures
            r@ == agent_executor_error_text(*self),
    {
        match self {
            ExecutorError::StepFailed(m) => owned("Step execution failed: ").concat(m.as_str()),
            ExecutorError::CommandError(m) => owned("Command execution error: ").concat(m.as_str()),
            ExecutorError::ClaudeApi(m) => owned("Model API error: ").concat(m.as_str()),
            ExecutorError::ContainerError(m) => owned("Container operation error: ").concat(m.as_str()),
            ExecutorError::Timeout => owned("Timeout exceeded"),
            ExecutorError::UserInputRequired => owned("User input required"),
            ExecutorError::TokenBudgetExceeded => owned("Token budget exceeded"),
            ExecutorError::CommandBlocked(m) => owned("Command blocked by safety policy: ").concat(m.as_str()),
        }
    }
}

/// Configuration for the executor.
#[derive(Debug)]
pub struct ExecutorConfig {
    /// Maximum iterations per step.
    pub max_iterations: u32,
    /// Default command timeout in seconds.
    pub default_timeout_secs: u64,
    /// Commands that are never allowed.
    pub command_blocklist: Vec<String>,
    /// Commands that are always allowed.
    pub command_allowlist: Vec<String>,
    /// Require human approval for destructive actions.
    pub require_approval_for_destructive: bool,
}

/// The fragments blocked by default.
pub open spec fn default_agent_blocklist() -> Seq<Seq<char>> {
    seq!["rm -rf /"@, "rm -rf /*"@, "sudo rm -rf"@, "chmod 777"@, ":(){ :|:& };:"@]
}

/// The commands allowed by default.
pub open spec fn default_agent_allowlist() -> Seq<Seq<char>> {
    seq!["ls"@, "cat"@, "grep"@, "find"@, "git"@, "npm"@, "cargo"@, "df"@, "du"@, "ps"@, "docker"@]
}

fn strings_of(v: Vec<&str>) -> (r: Vec<String>)
    ensures
        views(r@) == v@.map_values(|s: &str| s@),
{
    let mut out: Vec<String> = Vec::new();
    let mut i: usize = 0;
    while i < v.len()
        invariant
            i <= v.len(),
            out@.len() == i,
            views(out@) == v@.take(i as int).map_values(|s: &str| s@),
        decreases v.len() - i,
    {
        let ghost before = out@;
        out.push(owned(v[i]));
        proof {
            let a = views(out@);
            let b = v@.take(i + 1).map_values(|s: &str| s@);
            assert forall|j: int| 0 <= j < a.len() implies a[j] == b[j] by {
                if j < i {
                    assert(out@[j] == before[j]);
                    assert(views(before)[j] == v@.take(i as int).map_values(|s: &str| s@)[j]);
                }
            }
            assert(a =~= b);
        }
        i = i + 1;
    }
    assert(v@.take(v@.len() as int) =~= v@);
    out
}

impl Default for ExecutorConfig {
    fn default() -> (r: ExecutorConfig)
        ensures
            r.max_iterations == 5,
            r.default_timeout_secs == 60,
            views(r.command_blocklist@) == default_agent_blocklist(),
            views(r.command_allowlist@) == default_agent_allowlist(),
            r.require_approval_for_destructive,
    {
        let block = vec!["rm -rf /", "rm -rf /*", "sudo rm -rf", "chmod 777", ":(){ :|:& };:"];
        let allow = vec!["ls", "cat", "grep", "find", "git", "npm", "cargo", "df", "du", "ps", "docker"];
        let b = strings_of(block);
        let a = strings_of(allow);
        assert(views(b@) =~= default_agent_blocklist());
        assert(views(a@) =~= default_agent_allowlist());
        ExecutorConfig {
            max_iterations: 5,
            default_timeout_secs: 60,
            command_blocklist: b,
            command_allowlist: a,
            require_approval_for_destructive: true,
        }
    }
}

/// The command line shown for a command step.
pub open spec fn command_line(command: Seq<char>, args: Seq<Seq<char>>) -> Seq<char> {
    command + " "@ + join_seq(args, " "@)
}

/// Whether blocklist entry `i` occurs (case-sensitively) in the command line.
pub open spec fn blocked_at(list: Seq<Seq<char>>, i: int, line: Seq<char>) -> bool {
    contains_seq(line, list[i])
}

/// Executes task steps by Thought, Action, Observation.
pub struct ReActExecutor {
    config: ExecutorConfig,
}

impl ReActExecutor {
    /// The executor's configuration.
    pub closed spec fn config_of(self) -> ExecutorConfig {
        self.config
    }

    /// An executor with the given configuration.
    pub fn new(config: ExecutorConfig) -> (r: ReActExecutor)
        ensures
            r.config_of() == config,
    {
        ReActExecutor { config }
    }

    /// The number of attempts a step gets: its own limit or the executor's, the lower.
    pub fn iteration_limit(&self, step: &Step) -> (r: u32)
        ensures
            r == if step.max_iterations < self.config_of().max_iterations { step.max_iterations } else { self.config_of().max_iterations },
    {
        if step.max_iterations < self.config.max_iterations { step.max_iterations } else { self.config.max_iterations }
    }

    /// The thought of the first attempt.
    pub fn first_thought(step: &Step) -> (r: String)
        ensures
            r@ == "Attempting: "@ + step.description@,
    {
        owned("Attempting: ").concat(step.description.as_str())
    }

    /// The last error recorded, or `unknown`.
    pub fn last_error(context: &TaskContext) -> (r: String)
        ensures
            r@ == if context.errors@.len() > 0 { context.errors@.last()@ } else { "unknown"@ },
    {
        if context.errors.len() > 0 {
            context.errors[context.errors.len() - 1].clone()
        } else {
            owned("unknown")
        }
    }

    /// The prompt asking the model what to try after a failed attempt.
    pub fn retry_prompt(step: &Step, context: &TaskContext, iteration: u32) -> (r: String)
        ensures
            r@ == "The previous attempt at '"@ + step.description@ + "' failed with: "@
                + (if context.errors@.len() > 0 { context.errors@.last()@ } else { "unknown"@ })
                + "\nThis is attempt "@ + decimal(iteration as nat + 1) + " of "@ + decimal(step.max_iterations as nat)
                + ". What should we try differently?"@,
    {
        owned("The previous attempt at '").concat(step.description.as_str()).concat("' failed with: ")
            .concat(ReActExecutor::last_error(context).as_str()).concat("\nThis is attempt ")
            .concat(u64_to_string(iteration as u64 + 1).as_str()).concat(" of ")
            .concat(u64_to_string(step.max_iterations as u64).as_str()).concat(". What should we try differently?")
    }

    /// The thought of an attempt: a plain statement at first; later the model's
    /// advice, or a note of the last error when the model gave none.
    pub fn thought_for(step: &Step, context: &TaskContext, iteration: u32, advice: Option<String>) -> (r: String)
        ensures
            iteration == 0 ==> r@ == "Attempting: "@ + step.description@,
            iteration != 0 ==> match advice {
                Some(a) => r == a,
                None => r@ == "Retrying after error: "@
                    + (if context.errors@.len() > 0 { context.errors@.last()@ } else { "unknown"@ }),
            },
    {
        if iteration == 0 {
            return ReActExecutor::first_thought(step);
        }
        match advice {
            Some(a) => a,
            None => owned("Retrying after error: ").concat(ReActExecutor::last_error(context).as_str()),
        }
    }

    /// Checks a command against the blocklist: the command line, or the action and
    /// observation recorded when it is refused (naming the first fragment found).
    pub fn check_command(&self, command: &str, args: &Vec<String>) -> (r: Result<String, (String, String)>)
        ensures
            ({
                let line = command_line(command@, views(args@));
                let list = views(self.config_of().command_blocklist@);
                match r {
                    Ok(l) => l@ == line && forall|i: int| 0 <= i < list.len() ==> !#[trigger] blocked_at(list, i, line),
                    Err((a, o)) => a@ == line && exists|i: int| 0 <= i < list.len() && blocked_at(list, i, line)
                        && (forall|j: int| 0 <= j < i ==> !#[trigger] blocked_at(list, j, line))
                        && o@ == "Command blocked by safety policy: contains '"@ + list[i] + "'"@,
                }
            }),
    {
        let full = owned(command).concat(" ").concat(join(args, " ").as_str());
        let ghost line = command_line(command@, views(args@));
        let ghost list = views(self.config.command_blocklist@);
        let mut i: usize = 0;
        while i < self.config.command_blocklist.len()
            invariant
                i <= self.config.command_blocklist.len(),
                line == command_line(command@, views(args@)),
                list == views(self.config.command_blocklist@),
                full@ == line,
                forall|j: int| 0 <= j < i ==> !#[trigger] blocked_at(list, j, line),
            decreases self.config.command_blocklist.len() - i,
        {
            let b = &self.config.command_blocklist[i];
            assert(list[i as int] == b@);
            if contains(full.as_str(), b.as_str()) {
                assert(blocked_at(list, i as int, line));
                assert(list == views(self.config_of().command_blocklist@));
                assert(forall|j: int| 0 <= j < i ==> !#[trigger] blocked_at(views(self.config_of().command_blocklist@), j, line));
                let obs = owned("Command blocked by safety policy: contains '").concat(b.as_str()).concat("'");
                return Err((full, obs));
            }
            i = i + 1;
        }
        Ok(full)
    }

    /// What a finished command is observed as: its output, or both streams when it
    /// wrote to standard error.
    pub fn command_observation(stdout: &str, stderr: &str) -> (r: String)
        ensures
            r@ == if stderr@.len() == 0 { stdout@ } else { "stdout: "@ + stdout@ + "\nstderr: "@ + stderr@ },
    {
        if stderr.is_empty() {
            owned(stdout)
        } else {
            owned("stdout: ").concat(stdout).concat("\nstderr: ").concat(stderr)
        }
    }

    /// The action recorded for a container operation.
    pub fn container_action(operation: &str, container: &str) -> (r: String)
        ensures
            r@ == operation@ + " container "@ + container@,
    {
        owned(operation).concat(" container ").concat(container)
    }

    /// Whether the container operation is one the executor performs.
    pub fn known_container_op(operation: &str) -> (r: bool)
        ensures
            r == (operation@ == "start"@ || operation@ == "stop"@ || operation@ == "restart"@),
    {
        str_eq(operation, "start") || str_eq(operation, "stop") || str_eq(operation, "restart")
    }

    /// What a container operation is observed as, and whether it succeeded; `None`
    /// when the operation is unknown and was not attempted.
    pub fn container_outcome(operation: &str, container: &str, result: Option<Result<(), String>>) -> (r: (String, bool))
        ensures
            match result {
                None => r.0@ == "Unknown operation: "@ + operation@ && !r.1,
                Some(Ok(())) => r.0@ == "Container "@ + container@ + " "@ + operation@ + "ed successfully"@ && r.1,
                Some(Err(e)) => r.0@ == "Container operation failed: "@ + e@ && !r.1,
            },
    {
        match result {
            None => (owned("Unknown operation: ").concat(operation), false),
            Some(Ok(())) => (owned("Container ").concat(container).concat(" ").concat(operation).concat("ed successfully"), true),
            Some(Err(e)) => (owned("Container operation failed: ").concat(e.as_str()), false),
        }
    }

    /// The action recorded for a model call.
    pub fn claude_api_action(prompt: &str) -> (r: String)
        requires
            truncatable(prompt@, 50),
        ensures
            r@ == "Model API: "@ + truncated(prompt@, 50),
    {
        owned("Model API: ").concat(truncate_str(prompt, 50).as_str())
    }

    /// The action recorded for a coding session.
    pub fn claude_code_action(workspace: &str, prompt: &str) -> (r: String)
        requires
            truncatable(prompt@, 50),
        ensures
            r@ == "Coding session in "@ + workspace@ + ": "@ + truncated(prompt@, 50),
    {
        owned("Coding session in ").concat(workspace).concat(": ").concat(truncate_str(prompt, 50).as_str())
    }

    /// Marks the step as running.
    pub fn begin_step(step: &mut Step)
        ensures
            *final(step) == (Step { status: StepStatus::Running, ..*old(step) }),
    {
        step.status = StepStatus::Running;
    }

    /// The first directive for a step allowed `limit` attempts.
    pub fn first_attempt(limit: u32) -> (r: StepNext)
        ensures
            r == first_directive(limit),
    {
        if limit > 0 { StepNext::Attempt(0) } else { StepNext::Exhausted }
    }

    /// Records attempt `iteration` of at most `limit`, made at `now`, as
    /// `record_iteration_at` does, and says what comes next.
    pub fn after_attempt(
        step: &mut Step,
        context: &mut TaskContext,
        limit: u32,
        iteration: u32,
        thought: String,
        action: String,
        observation: String,
        success: bool,
        now: i64,
    ) -> (r: StepNext)
        requires
            iteration < limit,
        ensures
            r == step_next(limit, iteration, success),
            final(step).iterations@ == old(step).iterations@.push(StepIteration {
                iteration,
                thought,
                action,
                observation,
                success,
                timestamp: now,
            }),
            final(step).status == if success { StepStatus::Completed } else { old(step).status },
            final(step).id == old(step).id,
            final(step).description == old(step).description,
            final(step).step_type == old(step).step_type,
            final(step).depends_on == old(step).depends_on,
            final(step).max_iterations == old(step).max_iterations,
            final(step).tokens_used == old(step).tokens_used,
            final(context).errors@ == if success { old(context).errors@ } else { old(context).errors@.push(observation) },
            final(context).variables == old(context).variables,
            final(context).user_inputs == old(context).user_inputs,
            final(context).affected_files == old(context).affected_files,
    {
        let done = ReActExecutor::record_iteration_at(step, context, iteration, thought, action, observation, success, now);
        if done {
            StepNext::Done
        } else if iteration < limit - 1 {
            StepNext::Attempt(iteration + 1)
        } else {
            StepNext::Exhausted
        }
    }

    /// Records an attempt made at `now`: a success completes the step; a failure
    /// is remembered among the task's errors. Returns whether the step is done.
    pub fn record_iteration_at(
        step: &mut Step,
        context: &mut TaskContext,
        iteration: u32,
        thought: String,
        action: String,
        observation: String,
        success: bool,
        now: i64,
    ) -> (r: bool)
        ensures
            r == success,
            final(step).iterations@ == old(step).iterations@.push(StepIteration {
                iteration,
                thought,
                action,
                observation,
                success,
                timestamp: now,
            }),
            final(step).status == if success { StepStatus::Completed } else { old(step).status },
            final(step).id == old(step).id,
            final(step).description == old(step).description,
            final(step).step_type == old(step).step_type,
            final(step).depends_on == old(step).depends_on,
            final(step).max_iterations == old(step).max_iterations,
            final(step).tokens_used == old(step).tokens_used,
            final(context).errors@ == if success { old(context).errors@ } else { old(context).errors@.push(observation) },
            final(context).variables == old(context).variables,
            final(context).user_inputs == old(context).user_inputs,
            final(context).affected_files == old(context).affected_files,
    {
        let obs_copy = observation.clone();
        step.iterations.push(StepIteration { iteration, thought, action, observation, success, timestamp: now });
        if success {
            step.status = StepStatus::Completed;
            return true;
        }
        context.errors.push(obs_copy);
        false
    }

    /// Marks the step failed after its attempts ran out.
    pub fn fail_step(step: &mut Step, attempts: u32) -> (r: ExecutorError)
        ensures
            *final(step) == (Step { status: StepStatus::Failed, ..*old(step) }),
            r matches ExecutorError::StepFailed(m)
                && m@ == "Step "@ + old(step).id@ + " failed after "@ + decimal(attempts as nat) + " iterations"@,
    {
        step.status = StepStatus::Failed;
        ExecutorError::StepFailed(
            owned("Step ").concat(step.id.as_str()).concat(" failed after ").concat(u64_to_string(attempts as u64).as_str())
                .concat(" iterations"),
        )
    }
}

/// What to do next while running a step.
#[derive(Clone, Copy, Debug, PartialEq, Eq, Structural)]
pub enum StepNext {
    /// Make the attempt with this index.
    Attempt(u32),
    /// An attempt succeeded; the step is complete.
    Done,
    /// Every allowed attempt failed.
    Exhausted,
}

/// The first directive for a step allowed `limit` attempts.
pub open spec fn first_directive(limit: u32) -> StepNext {
    if limit > 0 { StepNext::Attempt(0) } else { StepNext::Exhausted }
}

/// The directive after attempt `iteration` of `limit` came out `success`.
pub open spec fn step_next(limit: u32, iteration: u32, success: bool) -> StepNext {
    if success {
        StepNext::Done
    } else if iteration + 1 < limit {
        StepNext::Attempt((iteration + 1) as u32)
    } else {
        StepNext::Exhausted
    }
}

/// The directive once the attempts asked for have come out as `outcomes` says,
/// in order; an outcome after the run has stopped changes nothing.
pub open spec fn run_directive(limit: u32, outcomes: Seq<bool>) -> StepNext
    decreases outcomes.len(),
{
    if outcomes.len() == 0 {
        first_directive(limit)
    } else {
        match run_directive(limit, outcomes.drop_last()) {
            StepNext::Attempt(i) => step_next(limit, i, outcomes.last()),
            d => d,
        }
    }
}

/// How many of `outcomes` belong to attempts that were asked for.
pub open spec fn attempts_made(limit: u32, outcomes: Seq<bool>) -> nat
    decreases outcomes.len(),
{
    if outcomes.len() == 0 {
        0
    } else {
        let before = attempts_made(limit, outcomes.drop_last());
        if run_directive(limit, outcomes.drop_last()) is Attempt { before + 1 } else { before }
    }
}

/// A step makes at most its limit of attempts, in order from 0, and stops at the
/// first that succeeds: while attempts are asked for, the next one's index is the
/// number made and all made so far failed; a completed step's last attempt is
/// the only one that succeeded; an exhausted step made exactly its limit of
/// attempts, all failed.
pub proof fn law_step_attempts(limit: u32, outcomes: Seq<bool>)
    ensures
        attempts_made(limit, outcomes) <= limit,
        attempts_made(limit, outcomes) <= outcomes.len(),
        run_directive(limit, outcomes) matches StepNext::Attempt(i) ==> {
            &&& i == attempts_made(limit, outcomes)
            &&& i == outcomes.len()
            &&& i < limit
            &&& forall|j: int| 0 <= j < i ==> !outcomes[j]
        },
        run_directive(limit, outcomes) is Done ==> {
            let k = attempts_made(limit, outcomes) - 1;
            &&& k >= 0
            &&& outcomes[k]
            &&& forall|j: int| 0 <= j < k ==> !outcomes[j]
        },
        run_directive(limit, outcomes) is Exhausted ==> {
            &&& attempts_made(limit, outcomes) == limit
            &&& forall|j: int| 0 <= j < limit ==> !outcomes[j]
        },
    decreases outcomes.len(),
{
    if outcomes.len() > 0 {
        let prefix = outcomes.drop_last();
        law_step_attempts(limit, prefix);
        assert forall|j: int| 0 <= j < prefix.len() implies prefix[j] == outcomes[j] by {}
        match run_directive(limit, prefix) {
            StepNext::Attempt(i) => {
                assert(outcomes.last() == outcomes[i as int]);
                assert(attempts_made(limit, outcomes) == i + 1);
            },
            _ => {
                assert(run_directive(limit, outcomes) == run_directive(limit, prefix));
                assert(attempts_made(limit, outcomes) == attempts_made(limit, prefix));
            },
        }
    }
}

} // verus!
