//! Core types for the agentic task execution system.

use vstd::prelude::*;
use crate::clock::{in_range, new_uuid, now_millis, uuid_v4_text};
use crate::text::{join, join_seq, owned, truncatable, truncate_str, truncated, views};

verus! {

/// Current status of a task.
#[derive(Clone, Copy, Debug, PartialEq, Eq, Structural)]
pub enum TaskStatus {
    /// Task is waiting to be processed.
    Queued,
    /// Task is being planned (generating steps).
    Planning,
    /// Task is actively being executed.
    Executing,
    /// Task is waiting for user input.
    AwaitingInput,
    /// Task completed successfully.
    Completed,
    /// Task failed.
    Failed,
    /// Task was cancelled.
    Cancelled,
}

/// The snake-case name of a task status.
pub open spec fn task_status_name(s: TaskStatus) -> Seq<char> {
    match s {
        TaskStatus::Queued => "queued"@,
        TaskStatus::Planning => "planning"@,
        TaskStatus::Executing => "executing"@,
        TaskStatus::AwaitingInput => "awaiting_input"@,
        TaskStatus::Completed => "completed"@,
        TaskStatus::Failed => "failed"@,
        TaskStatus::Cancelled => "cancelled"@,
    }
}

impl TaskStatus {
    /// The status name.
    pub fn as_str(&self) -> (r: &'static str)
        ensures
            r@ == task_status_name(*self),
    {
        match self {
            TaskStatus::Queued => "queued",
            TaskStatus::Planning => "planning",
            TaskStatus::Executing => "executing",
            TaskStatus::AwaitingInput => "awaiting_input",
            TaskStatus::Completed => "completed",
            TaskStatus::Failed => "failed",
            TaskStatus::Cancelled => "cancelled",
        }
    }

    /// The status name as an owned string (what `Display` prints).
    pub fn to_string(&self) -> (r: String)
        ensures
            r@ == task_status_name(*self),
    {
        owned(self.as_str())
    }
}

/// Priority level for tasks.
#[derive(Clone, Copy, Debug, PartialEq, Eq, Structural)]
pub enum TaskPriority {
    Low,
    Normal,
    High,
    Critical,
}

/// The position of a priority from lowest to highest.
pub open spec fn priority_rank(p: TaskPriority) -> int {
    match p {
        TaskPriority::Low => 0,
        TaskPriority::Normal => 1,
        TaskPriority::High => 2,
        TaskPriority::Critical => 3,
    }
}

/// The name of a priority.
pub open spec fn priority_name(p: TaskPriority) -> Seq<char> {
    match p {
        TaskPriority::Low => "low"@,
        TaskPriority::Normal => "normal"@,
        TaskPriority::High => "high"@,
        TaskPriority::Critical => "critical"@,
    }
}

impl TaskPriority {
    /// The priority name.
    pub fn as_str(&self) -> (r: &'static str)
        ensures
            r@ == priority_name(*self),
    {
        match self {
            TaskPriority::Low => "low",
            TaskPriority::Normal => "normal",
            TaskPriority::High => "high",
            TaskPriority::Critical => "critical",
        }
    }

    /// The priority name as an owned string (what `Display` prints).
    pub fn to_string(&self) -> (r: String)
        ensures
            r@ == priority_name(*self),
    {
        owned(self.as_str())
    }
}

impl Default for TaskPriority {
    fn default() -> (r: TaskPriority)
        ensures
            r == TaskPriority::Normal,
    {
        TaskPriority::Normal
    }
}

/// Status of an individual step.
#[derive(Clone, Copy, Debug, PartialEq, Eq, Structural)]
pub enum StepStatus {
    /// Step is waiting to be executed.
    Pending,
    /// Step is currently running.
    Running,
    /// Step completed successfully.
    Completed,
    /// Step failed.
    Failed,
    /// Step was skipped.
    Skipped,
}

/// The name of a step status.
pub open spec fn step_status_name(s: StepStatus) -> Seq<char> {
    match s {
        StepStatus::Pending => "pending"@,
        StepStatus::Running => "running"@,
        StepStatus::Completed => "completed"@,
        StepStatus::Failed => "failed"@,
        StepStatus::Skipped => "skipped"@,
    }
}

impl StepStatus {
    /// The status name.
    pub fn as_str(&self) -> (r: &'static str)
        ensures
            r@ == step_status_name(*self),
    {
        match self {
            StepStatus::Pending => "pending",
            StepStatus::Running => "running",
            StepStatus::Completed => "completed",
            StepStatus::Failed => "failed",
            StepStatus::Skipped => "skipped",
        }
    }

    /// The status name as an owned string (what `Display` prints).
    pub fn to_string(&self) -> (r: String)
        ensures
            r@ == step_status_name(*self),
    {
        owned(self.as_str())
    }
}

/// Type of step to execute.
#[derive(Debug)]
pub enum StepType {
    /// Execute a coding session in a workspace.
    ClaudeCode { workspace: String, prompt: String },
    /// Call the model API directly.
    ClaudeApi { prompt: String, system: Option<String> },
    /// Execute a shell command.
    Command { command: String, args: Vec<String>, timeout_secs: u64 },
    /// Container operation: start, stop, restart, remove.
    ContainerOp { operation: String, container: String },
    /// Request user input.
    UserInput { prompt: String },
}

/// Whether the prompts a description shows can be cut at 50 bytes.
pub open spec fn describable(t: StepType) -> bool {
    match t {
        StepType::ClaudeCode { prompt, .. } => truncatable(prompt@, 50),
        StepType::ClaudeApi { prompt, .. } => truncatable(prompt@, 50),
        StepType::UserInput { prompt } => truncatable(prompt@, 50),
        _ => true,
    }
}

/// The description of a step type.
pub open spec fn step_type_description(t: StepType) -> Seq<char> {
    match t {
        StepType::ClaudeCode { workspace, prompt } =>
            "Coding session in "@ + workspace@ + ": "@ + truncated(prompt@, 50),
        StepType::ClaudeApi { prompt, .. } => "Model API: "@ + truncated(prompt@, 50),
        StepType::Command { command, args, .. } => command@ + " "@ + join_seq(views(args@), " "@),
        StepType::ContainerOp { operation, container } => operation@ + " container "@ + container@,
        StepType::UserInput { prompt } => "Waiting for input: "@ + truncated(prompt@, 50),
    }
}

/// Two step types that agree in every field, argument lists by content.
pub open spec fn same_step_type(a: StepType, b: StepType) -> bool {
    match (a, b) {
        (StepType::Command { command: c1, args: a1, timeout_secs: t1 },
         StepType::Command { command: c2, args: a2, timeout_secs: t2 }) => c1 == c2 && a1@ == a2@ && t1 == t2,
        _ => a == b,
    }
}

impl StepType {
    /// A description of this step type (prompts cut to 50 bytes).
    pub fn description(&self) -> (r: String)
        requires
            describable(*self),
        ensures
            r@ == step_type_description(*self),
    {
        match self {
            StepType::ClaudeCode { workspace, prompt } => owned("Coding session in ")
                .concat(workspace.as_str()).concat(": ").concat(truncate_str(prompt.as_str(), 50).as_str()),
            StepType::ClaudeApi { prompt, .. } => owned("Model API: ").concat(truncate_str(prompt.as_str(), 50).as_str()),
            StepType::Command { command, args, .. } => command.clone().concat(" ").concat(join(args, " ").as_str()),
            StepType::ContainerOp { operation, container } => operation.clone().concat(" container ").concat(container.as_str()),
            StepType::UserInput { prompt } => owned("Waiting for input: ").concat(truncate_str(prompt.as_str(), 50).as_str()),
        }
    }

    /// A copy of the step type.
    pub fn duplicate(&self) -> (r: StepType)
        ensures
            same_step_type(r, *self),
    {
        match self {
            StepType::ClaudeCode { workspace, prompt } => StepType::ClaudeCode { workspace: workspace.clone(), prompt: prompt.clone() },
            StepType::ClaudeApi { prompt, system } => StepType::ClaudeApi { prompt: prompt.clone(), system: crate::text::clone_opt_string(system) },
            StepType::Command { command, args, timeout_secs } => StepType::Command {
                command: command.clone(),
                args: crate::text::clone_strings(args),
                timeout_secs: *timeout_secs,
            },
            StepType::ContainerOp { operation, container } => StepType::ContainerOp { operation: operation.clone(), container: container.clone() },
            StepType::UserInput { prompt } => StepType::UserInput { prompt: prompt.clone() },
        }
    }
}

/// A single iteration of a step (Thought, Action, Observation).
#[derive(Debug)]
pub struct StepIteration {
    /// Iteration number (0-indexed).
    pub iteration: u32,
    /// The agent's reasoning (Thought).
    pub thought: String,
    /// The action taken.
    pub action: String,
    /// The result observed.
    pub observation: String,
    /// Whether this iteration succeeded.
    pub success: bool,
    /// When this iteration ran (milliseconds since the epoch).
    pub timestamp: i64,
}

/// A step in a task's execution plan.
#[derive(Debug)]
pub struct Step {
    /// Unique identifier.
    pub id: String,
    /// Human-readable description.
    pub description: String,
    /// Type of step and its parameters.
    pub step_type: StepType,
    /// Current status.
    pub status: StepStatus,
    /// IDs of steps that must complete before this one.
    pub depends_on: Vec<String>,
    /// Iterations of this step.
    pub iterations: Vec<StepIteration>,
    /// Maximum number of iterations allowed.
    pub max_iterations: u32,
    /// Tokens consumed by this step.
    pub tokens_used: u32,
}

impl Step {
    /// A pending step with at most five iterations and no dependencies.
    pub fn new(id: String, description: String, step_type: StepType) -> (r: Step)
        ensures
            r.id == id,
            r.description == description,
            r.step_type == step_type,
            r.status == StepStatus::Pending,
            r.depends_on@.len() == 0,
            r.iterations@.len() == 0,
            r.max_iterations == 5,
            r.tokens_used == 0,
    {
        Step {
            id,
            description,
            step_type,
            status: StepStatus::Pending,
            depends_on: Vec::new(),
            iterations: Vec::new(),
            max_iterations: 5,
            tokens_used: 0,
        }
    }

    /// Whether the step completed.
    pub fn succeeded(&self) -> (r: bool)
        ensures
            r == (self.status == StepStatus::Completed),
    {
        self.status == StepStatus::Completed
    }

    /// Whether the step failed.
    pub fn failed(&self) -> (r: bool)
        ensures
            r == (self.status == StepStatus::Failed),
    {
        self.status == StepStatus::Failed
    }
}

/// Context passed to the agent during task execution.
#[derive(Debug)]
pub struct TaskContext {
    /// Additional variables, in the order set; a later entry for a name wins.
    pub variables: Vec<(String, String)>,
    /// User input collected during execution, in the order given; a later entry wins.
    pub user_inputs: Vec<(String, String)>,
    /// Files created or modified during execution.
    pub affected_files: Vec<String>,
    /// Errors encountered (for context in retries).
    pub errors: Vec<String>,
}

impl Default for TaskContext {
    fn default() -> (r: TaskContext)
        ensures
            r.variables@.len() == 0,
            r.user_inputs@.len() == 0,
            r.affected_files@.len() == 0,
            r.errors@.len() == 0,
    {
        TaskContext { variables: Vec::new(), user_inputs: Vec::new(), affected_files: Vec::new(), errors: Vec::new() }
    }
}

/// Result of a completed task.
#[derive(Debug)]
pub struct TaskResult {
    /// Whether the task succeeded overall.
    pub success: bool,
    /// Summary of what was accomplished.
    pub summary: String,
    /// Detailed output/logs.
    pub output: String,
    /// Total tokens consumed.
    pub tokens_used: u32,
    /// Time taken in seconds.
    pub duration_secs: u64,
}

/// A task submitted to the agent.
#[derive(Debug)]
pub struct Task {
    /// Unique identifier.
    pub id: String,
    /// Short title.
    pub title: String,
    /// Full description of what to do.
    pub description: String,
    /// When the task was created (milliseconds since the epoch).
    pub created_at: i64,
    /// Who/what created the task.
    pub created_by: String,
    /// Priority level.
    pub priority: TaskPriority,
    /// Current status.
    pub status: TaskStatus,
    /// Planned steps (populated during planning).
    pub steps: Vec<Step>,
    /// Current step index being executed.
    pub current_step_index: usize,
    /// Execution context.
    pub context: TaskContext,
    /// Final result (when completed).
    pub result: Option<TaskResult>,
    /// Token budget for the task.
    pub token_budget: u32,
    /// Tokens consumed so far.
    pub tokens_used: u32,
}

/// Whether a status is final.
pub open spec fn is_terminal_status(s: TaskStatus) -> bool {
    s == TaskStatus::Completed || s == TaskStatus::Failed || s == TaskStatus::Cancelled
}

/// `t` is a fresh task with the given identity, created at `now`.
pub open spec fn is_fresh_task(t: Task, title: String, description: String, created_by: String, now: int) -> bool {
    &&& t.title == title
    &&& t.description == description
    &&& t.created_by == created_by
    &&& t.created_at == now
    &&& t.priority == TaskPriority::Normal
    &&& t.status == TaskStatus::Queued
    &&& t.steps@.len() == 0
    &&& t.current_step_index == 0
    &&& t.context.variables@.len() == 0
    &&& t.context.user_inputs@.len() == 0
    &&& t.context.affected_files@.len() == 0
    &&& t.context.errors@.len() == 0
    &&& t.result is None
    &&& t.token_budget == 50_000
    &&& t.tokens_used == 0
}

impl Task {
    /// A queued task with the given identifier, created at `now`, a 50 000-token
    /// budget and normal priority.
    pub fn create(id: String, title: String, description: String, created_by: String, now: i64) -> (r: Task)
        ensures
            r.id == id,
            is_fresh_task(r, title, description, created_by, now as int),
    {
        Task {
            id,
            title,
            description,
            created_at: now,
            created_by,
            priority: TaskPriority::Normal,
            status: TaskStatus::Queued,
            steps: Vec::new(),
            current_step_index: 0,
            context: TaskContext::default(),
            result: None,
            token_budget: 50_000,
            tokens_used: 0,
        }
    }

    /// A new queued task with a fresh identifier, created now.
    pub fn new(title: String, description: String, created_by: String) -> (r: Task)
        ensures
            r.id@.len() == 36,
            exists|b: Seq<u8>| b.len() == 16 && r.id@ == uuid_v4_text(b),
            exists|now: int| in_range(now) && #[trigger] is_fresh_task(r, title, description, created_by, now),
    {
        let now = now_millis();
        let r = Task::create(new_uuid(), title, description, created_by, now);
        assert(is_fresh_task(r, title, description, created_by, now as int));
        r
    }

    /// Whether the task is in a terminal state.
    pub fn is_terminal(&self) -> (r: bool)
        ensures
            r == is_terminal_status(self.status),
    {
        match self.status {
            TaskStatus::Completed | TaskStatus::Failed | TaskStatus::Cancelled => true,
            _ => false,
        }
    }

    /// The step being executed, if any.
    pub fn current_step(&self) -> (r: Option<&Step>)
        ensures
            self.current_step_index < self.steps@.len() ==> r == Some(&self.steps@[self.current_step_index as int]),
            self.current_step_index >= self.steps@.len() ==> r is None,
    {
        if self.current_step_index < self.steps.len() {
            Some(&self.steps[self.current_step_index])
        } else {
            None
        }
    }

    /// Whether the token budget is used up.
    pub fn over_budget(&self) -> (r: bool)
        ensures
            r == (self.tokens_used >= self.token_budget),
    {
        self.tokens_used >= self.token_budget
    }
}

/// State of the agent engine.
#[derive(Clone, Copy, Debug, PartialEq, Eq, Structural)]
pub enum AgentState {
    /// Agent is idle, waiting for tasks.
    Idle,
    /// Agent is processing a task.
    Processing,
    /// Agent is paused.
    Paused,
}

} // verus!
