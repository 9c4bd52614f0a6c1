//! The agent engine: what processing a task does at each phase (planning, each
//! step, evaluation), as transitions of the engine's state.
//!
//! The caller runs the loop: it asks the model for the plan, runs each step and
//! obtains the summary, handing each outcome to the engine and sending on the
//! notification the engine returns.

use vstd::prelude::*;
use crate::agent::evaluator::ResultEvaluator;
use crate::agent::executor::{agent_executor_error_text, ExecutorConfig, ExecutorError, ReActExecutor};
use crate::agent::planner::{planner_error_text, PlannerError, TaskPlanner};
use crate::agent::task::{first_task, first_waiting, no_task, none_waiting, task_named, TaskQueue, TaskQueueError};
use crate::agent::types::{AgentState, Step, StepType, Task, TaskContext, TaskPriority, TaskResult, TaskStatus};
use crate::clock::{in_range, new_uuid, now_millis};
use crate::config::AgentConfig;
use crate::text::{clone_strings, owned};

verus! {

/// Errors of the agent.
#[derive(Debug)]
pub enum AgentError {
    TaskQueue(TaskQueueError),
    Planning(PlannerError),
    Execution(ExecutorError),
    NotRunning,
    TaskNotFound(String),
}

/// An agent error's message.
pub open spec fn agent_error_text(e: AgentError) -> Seq<char> {
    match e {
        AgentError::TaskQueue(e) => "Task queue error: "@ + crate::agent::task::task_queue_error_text(e),
        AgentError::Planning(e) => "Planning error: "@ + planner_error_text(e),
        AgentError::Execution(e) => "Execution error: "@ + agent_executor_error_text(e),
        AgentError::NotRunning => "Agent is not running"@,
        AgentError::TaskNotFound(id) => "Task not found: "@ + id@,
    }
}

impl AgentError {
    /// The error's message.
    pub fn message(&self) -> (r: String)
        ensures
            r@ == agent_error_text(*self),
    {
        match self {
            AgentError::TaskQueue(e) => {
                let m = e.message();
                owned("Task queue error: ").concat(m.as_str())
            },
            AgentError::Planning(e) => {
                let m = e.message();
                owned("Planning error: ").concat(m.as_str())
            },
            AgentError::Execution(e) => {
                let m = e.message();
                owned("Execution error: ").concat(m.as_str())
            },
            AgentError::NotRunning => owned("Agent is not running"),
            AgentError::TaskNotFound(id) => owned("Task not found: ").concat(id.as_str()),
        }
    }
}

/// Notifications sent by the agent.
#[derive(Debug)]
pub enum AgentNotification {
    /// Task submitted to queue.
    TaskSubmitted { task_id: String, title: String },
    /// Task planning started.
    TaskPlanning { task_id: String },
    /// Task execution started.
    TaskStarted { task_id: String, steps: usize },
    /// Step completed.
    StepCompleted { task_id: String, step_index: usize, total_steps: usize, description: String },
    /// Step failed (will retry).
    StepRetrying { task_id: String, step_index: usize, attempt: u32, error: String },
    /// Task requires user input.
    UserInputRequired { task_id: String, prompt: String },
    /// Task completed successfully.
    TaskCompleted { task_id: String, summary: String },
    /// Task failed.
    TaskFailed { task_id: String, error: String },
}

/// What to do about the next step of a task.
#[derive(Debug)]
pub enum StepPlan {
    /// Run the step.
    Run,
    /// Stop: the task is over its token budget (it failed).
    OverBudget(AgentNotification),
    /// Stop: the step needs the user's input (the task awaits it).
    NeedsInput(AgentNotification),
    /// Stop: the task or step is not there.
    Missing,
}

/// The main agent engine.
pub struct AgentEngine {
    enabled: bool,
    max_tokens_per_task: u32,
    state: AgentState,
    queue: TaskQueue,
    planner: TaskPlanner,
    executor: ReActExecutor,
    evaluator: ResultEvaluator,
}

impl AgentEngine {
    /// The engine's state.
    pub closed spec fn state_of(self) -> AgentState {
        self.state
    }

    /// The task queue.
    pub closed spec fn queue_of(self) -> TaskQueue {
        self.queue
    }

    /// The token budget given to new tasks.
    pub closed spec fn token_budget(self) -> u32 {
        self.max_tokens_per_task
    }

    /// Whether the agent is enabled.
    pub closed spec fn enabled_flag(self) -> bool {
        self.enabled
    }

    /// The planner.
    pub closed spec fn planner_of(self) -> TaskPlanner {
        self.planner
    }

    /// The step executor.
    pub closed spec fn executor_of(self) -> ReActExecutor {
        self.executor
    }

    /// The result evaluator.
    pub closed spec fn evaluator_of(self) -> ResultEvaluator {
        self.evaluator
    }

    /// An idle engine with an empty queue: plans of at most the configured steps,
    /// five attempts per step, the configured command lists.
    pub fn new(config: &AgentConfig) -> (r: AgentEngine)
        ensures
            r.state_of() == AgentState::Idle,
            r.queue_of().task_list().len() == 0,
            r.queue_of().queued().len() == 0,
            r.token_budget() == config.max_tokens_per_task,
            r.enabled_flag() == config.enabled,
            r.planner_of().step_limit() == config.max_steps_per_task,
            r.executor_of().config_of().max_iterations == 5,
            r.executor_of().config_of().default_timeout_secs == 60,
            r.executor_of().config_of().command_blocklist@ == config.safety.command_blocklist@,
            r.executor_of().config_of().command_allowlist@ == config.safety.command_allowlist@,
            r.executor_of().config_of().require_approval_for_destructive,
    {
        let planner = TaskPlanner::new().with_max_steps(config.max_steps_per_task);
        let executor_config = ExecutorConfig {
            max_iterations: 5,
            default_timeout_secs: 60,
            command_blocklist: clone_strings(&config.safety.command_blocklist),
            command_allowlist: clone_strings(&config.safety.command_allowlist),
            require_approval_for_destructive: true,
        };
        AgentEngine {
            enabled: config.enabled,
            max_tokens_per_task: config.max_tokens_per_task,
            state: AgentState::Idle,
            queue: TaskQueue::new(),
            planner,
            executor: ReActExecutor::new(executor_config),
            evaluator: ResultEvaluator::new(),
        }
    }

    /// The planner.
    pub fn planner(&self) -> (r: &TaskPlanner)
        ensures
            *r == self.planner_of(),
    {
        &self.planner
    }

    /// The step executor.
    pub fn executor(&self) -> (r: &ReActExecutor)
        ensures
            *r == self.executor_of(),
    {
        &self.executor
    }

    /// The result evaluator.
    pub fn evaluator(&self) -> (r: &ResultEvaluator)
        ensures
            *r == self.evaluator_of(),
    {
        &self.evaluator
    }

    /// The task queue.
    pub fn queue(&self) -> (r: &TaskQueue)
        ensures
            *r == self.queue_of(),
    {
        &self.queue
    }

    /// The task queue, for loading and saving.
    pub fn queue_mut(&mut self) -> (r: &mut TaskQueue)
        ensures
            *r == old(self).queue_of(),
            final(self).queue_of() == *final(r),
            final(self).state_of() == old(self).state_of(),
    {
        &mut self.queue
    }

    /// A new task (created at `now`, with the engine's token budget and the given
    /// priority), queued; returns its identifier and the notification.
    pub fn submit_task_at(
        &mut self,
        title: String,
        description: String,
        created_by: String,
        priority: TaskPriority,
        now: i64,
    ) -> (r: (String, AgentNotification))
        ensures
            r.0@.len() == 36,
            r.1 matches AgentNotification::TaskSubmitted { task_id, title: t } && task_id@ == r.0@ && t@ == title@,
            task_named(final(self).queue_of().task_list(), r.0@) matches Some(task)
                && task.title == title && task.description == description && task.created_by == created_by
                && task.priority == priority && task.status == TaskStatus::Queued
                && task.token_budget == old(self).token_budget() && task.created_at == now
                || !no_task(old(self).queue_of().task_list(), r.0@),
            final(self).state_of() == old(self).state_of(),
    {
        let title_copy = title.clone();
        let mut task = Task::create(new_uuid(), title, description, created_by, now);
        task.priority = priority;
        task.token_budget = self.max_tokens_per_task;
        let ghost t = task;
        let ghost before = self.queue.task_list();
        let id = self.queue.submit(task);
        proof {
            let after = self.queue.task_list();
            if no_task(before, id@) {
                assert(after == before.push(t));
                assert(first_task(after, id@, before.len() as int));
                let k = choose|k: int| first_task(after, id@, k);
                if k < before.len() {
                    assert(after[k] == before[k]);
                } else if k > before.len() {
                    assert(after[before.len() as int].id@ == id@);
                }
            }
        }
        let note = AgentNotification::TaskSubmitted { task_id: id.clone(), title: title_copy };
        (id, note)
    }

    /// Picks the next waiting task and starts planning it: the engine is busy and
    /// the task is marked as planning. Returns the task's identifier and the
    /// notification, or nothing when no task waits.
    pub fn start_next_task(&mut self) -> (r: Option<(String, AgentNotification)>)
        ensures
            match r {
                None => *final(self) == *old(self)
                    && none_waiting(old(self).queue_of().queued(), old(self).queue_of().task_list()),
                Some((id, note)) => {
                    &&& first_waiting(old(self).queue_of().queued(), old(self).queue_of().task_list(), id@)
                    &&& final(self).state_of() == AgentState::Processing
                    &&& note matches AgentNotification::TaskPlanning { task_id } && task_id@ == id@
                    &&& exists|i: int| first_task(old(self).queue_of().task_list(), id@, i)
                        && final(self).queue_of().task_list() == old(self).queue_of().task_list().update(
                            i, Task { status: TaskStatus::Planning, ..old(self).queue_of().task_list()[i] })
                    &&& final(self).queue_of().queued() == old(self).queue_of().queued()
                },
            },
    {
        match self.queue.next_id() {
            None => None,
            Some(id) => {
                self.state = AgentState::Processing;
                let _ = self.queue.set_status(id.as_str(), TaskStatus::Planning);
                let note = AgentNotification::TaskPlanning { task_id: id.clone() };
                Some((id, note))
            },
        }
    }

    /// What a tick of the engine's timer does: nothing while paused, otherwise it
    /// starts the next waiting task as [`Self::start_next_task`] does.
    pub fn on_tick(&mut self) -> (r: Option<(String, AgentNotification)>)
        ensures
            old(self).state_of() == AgentState::Paused ==> r is None && *final(self) == *old(self),
            old(self).state_of() != AgentState::Paused ==> match r {
                None => *final(self) == *old(self)
                    && none_waiting(old(self).queue_of().queued(), old(self).queue_of().task_list()),
                Some((id, note)) => {
                    &&& first_waiting(old(self).queue_of().queued(), old(self).queue_of().task_list(), id@)
                    &&& final(self).state_of() == AgentState::Processing
                    &&& note matches AgentNotification::TaskPlanning { task_id } && task_id@ == id@
                    &&& exists|i: int| first_task(old(self).queue_of().task_list(), id@, i)
                        && final(self).queue_of().task_list() == old(self).queue_of().task_list().update(
                            i, Task { status: TaskStatus::Planning, ..old(self).queue_of().task_list()[i] })
                    &&& final(self).queue_of().queued() == old(self).queue_of().queued()
                },
            },
    {
        if self.state == AgentState::Paused {
            None
        } else {
            self.start_next_task()
        }
    }

    /// Applies a planning outcome: the plan's steps are stored and the task
    /// executes; a planning error fails the task and idles the engine.
    pub fn apply_plan(&mut self, id: &str, plan: Result<Vec<Step>, PlannerError>) -> (r: (AgentNotification, Option<AgentError>))
        ensures
            final(self).queue_of().queued() == old(self).queue_of().queued(),
            match plan {
                Ok(steps) => {
                    &&& r.1 is None
                    &&& r.0 matches AgentNotification::TaskStarted { task_id, steps: n } && task_id@ == id@ && n == steps@.len()
                    &&& final(self).state_of() == old(self).state_of()
                    &&& forall|i: int| first_task(old(self).queue_of().task_list(), id@, i) ==>
                        final(self).queue_of().task_list() == old(self).queue_of().task_list().update(
                            i, Task { steps, status: TaskStatus::Executing, ..old(self).queue_of().task_list()[i] })
                },
                Err(e) => {
                    &&& r.1 matches Some(AgentError::Planning(x)) && x == e
                    &&& r.0 matches AgentNotification::TaskFailed { task_id, error } && task_id@ == id@
                        && error@ == planner_error_text(e)
                    &&& final(self).state_of() == AgentState::Idle
                    &&& forall|i: int| first_task(old(self).queue_of().task_list(), id@, i) ==>
                        final(self).queue_of().task_list() == old(self).queue_of().task_list().update(
                            i, Task { status: TaskStatus::Failed, ..old(self).queue_of().task_list()[i] })
                },
            },
    {
        match plan {
            Ok(steps) => {
                let n = steps.len();
                match self.queue.take(id) {
                    Some((i, mut task)) => {
                        task.steps = steps;
                        task.status = TaskStatus::Executing;
                        self.queue.restore(i, task);
                        proof {
                            let t0 = old(self).queue_of().task_list();
                            assert forall|k: int| first_task(t0, id@, k) implies k == i by {
                                if k < i { assert(t0[k].id@ != id@); } else if k > i { assert(t0[i as int].id@ != id@); }
                            }
                            assert(self.queue.task_list() =~= t0.update(i as int, Task { steps, status: TaskStatus::Executing, ..t0[i as int] }));
                        }
                    },
                    None => {},
                }
                (AgentNotification::TaskStarted { task_id: owned(id), steps: n }, None)
            },
            Err(e) => {
                let _ = self.queue.set_status(id, TaskStatus::Failed);
                proof {
                    let t0 = old(self).queue_of().task_list();
                    assert forall|k: int| first_task(t0, id@, k) implies self.queue.task_list() == t0.update(
                        k, Task { status: TaskStatus::Failed, ..t0[k] }) by {
                        let j = choose|j: int| first_task(t0, id@, j)
                            && self.queue.task_list() == t0.update(j, Task { status: TaskStatus::Failed, ..t0[j] });
                        if k < j { assert(t0[k].id@ != id@); } else if j < k { assert(t0[j].id@ != id@); }
                    }
                }
                let msg = e.message();
                self.state = AgentState::Idle;
                (AgentNotification::TaskFailed { task_id: owned(id), error: msg }, Some(AgentError::Planning(e)))
            },
        }
    }

    /// Decides about step `step_index` of a task: the step index is recorded; a task
    /// over its token budget fails; a step that asks the user stops the task until
    /// the answer comes; any other step runs.
    pub fn plan_step(&mut self, id: &str, step_index: usize) -> (r: StepPlan)
        ensures
            final(self).queue_of().queued() == old(self).queue_of().queued(),
            match task_named(old(self).queue_of().task_list(), id@) {
                None => r is Missing && final(self).queue_of().task_list() == old(self).queue_of().task_list()
                    && final(self).state_of() == old(self).state_of(),
                Some(t) => if step_index >= t.steps@.len() {
                    r is Missing && final(self).queue_of().task_list() == old(self).queue_of().task_list()
                        && final(self).state_of() == old(self).state_of()
                } else if t.tokens_used >= t.token_budget {
                    &&& r matches StepPlan::OverBudget(AgentNotification::TaskFailed { task_id, error })
                        && task_id@ == id@ && error@ == "Token budget exceeded"@
                    &&& final(self).state_of() == AgentState::Idle
                    &&& task_named(final(self).queue_of().task_list(), id@) == Some(Task {
                        current_step_index: step_index, status: TaskStatus::Failed, ..t })
                } else if t.steps@[step_index as int].step_type is UserInput {
                    &&& r matches StepPlan::NeedsInput(AgentNotification::UserInputRequired { task_id, prompt })
                        && task_id@ == id@ && prompt@ == t.steps@[step_index as int].step_type->UserInput_prompt@
                    &&& final(self).state_of() == AgentState::Idle
                    &&& task_named(final(self).queue_of().task_list(), id@) == Some(Task {
                        current_step_index: step_index, status: TaskStatus::AwaitingInput, ..t })
                } else {
                    &&& r is Run
                    &&& final(self).state_of() == old(self).state_of()
                    &&& task_named(final(self).queue_of().task_list(), id@) == Some(Task { current_step_index: step_index, ..t })
                },
            },
    {
        let ghost t0 = self.queue.task_list();
        match self.queue.take(id) {
            None => {
                proof { assert(task_named(t0, id@) is None); }
                StepPlan::Missing
            },
            Some((i, mut task)) => {
                proof { crate::agent::engine::lemma_named_at(t0, id@, i as int); }
                if step_index >= task.steps.len() {
                    self.queue.restore(i, task);
                    proof { assert(self.queue.task_list() =~= t0); }
                    return StepPlan::Missing;
                }
                task.current_step_index = step_index;
                let plan = if task.over_budget() {
                    task.status = TaskStatus::Failed;
                    self.state = AgentState::Idle;
                    StepPlan::OverBudget(AgentNotification::TaskFailed { task_id: owned(id), error: owned("Token budget exceeded") })
                } else {
                    match &task.steps[step_index].step_type {
                        StepType::UserInput { prompt } => {
                            let p = prompt.clone();
                            task.status = TaskStatus::AwaitingInput;
                            self.state = AgentState::Idle;
                            StepPlan::NeedsInput(AgentNotification::UserInputRequired { task_id: owned(id), prompt: p })
                        },
                        _ => StepPlan::Run,
                    }
                };
                let ghost nt = task;
                self.queue.restore(i, task);
                proof {
                    let t1 = self.queue.task_list();
                    assert(t1 == t0.update(i as int, nt));
                    assert(first_task(t1, id@, i as int));
                    lemma_named_at(t1, id@, i as int);
                }
                plan
            },
        }
    }

    /// Applies a step's outcome: success stores the step and context and counts its
    /// tokens; a request for input stops the task until the answer comes; any other
    /// failure stores the step and context and fails the task.
    pub fn apply_step_outcome(
        &mut self,
        id: &str,
        step_index: usize,
        step: Step,
        context: TaskContext,
        outcome: Result<(), ExecutorError>,
    ) -> (r: Option<AgentNotification>)
        requires
            forall|t: Task| task_named(old(self).queue_of().task_list(), id@) == Some(t)
                ==> t.tokens_used + step.tokens_used <= u32::MAX,
        ensures
            final(self).queue_of().queued() == old(self).queue_of().queued(),
            match task_named(old(self).queue_of().task_list(), id@) {
                None => r is None && final(self).queue_of().task_list() == old(self).queue_of().task_list()
                    && final(self).state_of() == old(self).state_of(),
                Some(t) => if step_index >= t.steps@.len() {
                    r is None && final(self).queue_of().task_list() == old(self).queue_of().task_list()
                        && final(self).state_of() == old(self).state_of()
                } else {
                    match outcome {
                        Ok(()) => {
                            &&& r matches Some(AgentNotification::StepCompleted { task_id, step_index: si, total_steps, description })
                                && task_id@ == id@ && si == step_index && total_steps == t.steps@.len()
                                && description == step.description
                            &&& final(self).state_of() == old(self).state_of()
                            &&& task_named(final(self).queue_of().task_list(), id@) matches Some(u)
                                && u.steps@ == t.steps@.update(step_index as int, step)
                                && u.context == context
                                && u.tokens_used == t.tokens_used + step.tokens_used
                                && u.status == t.status
                        },
                        Err(ExecutorError::UserInputRequired) => {
                            &&& final(self).state_of() == AgentState::Idle
                            &&& task_named(final(self).queue_of().task_list(), id@) == Some(Task { status: TaskStatus::AwaitingInput, ..t })
                            &&& match step.step_type {
                                StepType::UserInput { prompt } => r matches Some(AgentNotification::UserInputRequired { task_id, prompt: p })
                                    && task_id@ == id@ && p == prompt,
                                _ => r is None,
                            }
                        },
                        Err(e) => {
                            &&& r matches Some(AgentNotification::TaskFailed { task_id, error })
                                && task_id@ == id@ && error@ == agent_executor_error_text(e)
                            &&& final(self).state_of() == AgentState::Idle
                            &&& task_named(final(self).queue_of().task_list(), id@) matches Some(u)
                                && u.steps@ == t.steps@.update(step_index as int, step)
                                && u.context == context
                                && u.status == TaskStatus::Failed
                                && u.tokens_used == t.tokens_used
                        },
                    }
                },
            },
    {
        let ghost t0 = self.queue.task_list();
        match self.queue.take(id) {
            None => {
                proof { assert(task_named(t0, id@) is None); }
                None
            },
            Some((i, mut task)) => {
                proof { lemma_named_at(t0, id@, i as int); }
                if step_index >= task.steps.len() {
                    self.queue.restore(i, task);
                    proof { assert(self.queue.task_list() =~= t0); }
                    return None;
                }
                let note = match outcome {
                    Ok(()) => {
                        let total = task.steps.len();
                        let description = step.description.clone();
                        task.tokens_used = task.tokens_used + step.tokens_used;
                        task.steps.set(step_index, step);
                        task.context = context;
                        Some(AgentNotification::StepCompleted { task_id: owned(id), step_index, total_steps: total, description })
                    },
                    Err(ExecutorError::UserInputRequired) => {
                        task.status = TaskStatus::AwaitingInput;
                        self.state = AgentState::Idle;
                        match step.step_type {
                            StepType::UserInput { prompt } => Some(AgentNotification::UserInputRequired { task_id: owned(id), prompt }),
                            _ => None,
                        }
                    },
                    Err(e) => {
                        let msg = e.message();
                        task.steps.set(step_index, step);
                        task.context = context;
                        task.status = TaskStatus::Failed;
                        self.state = AgentState::Idle;
                        Some(AgentNotification::TaskFailed { task_id: owned(id), error: msg })
                    },
                };
                let ghost nt = task;
                self.queue.restore(i, task);
                proof {
                    let t1 = self.queue.task_list();
                    assert(t1 == t0.update(i as int, nt));
                    assert(first_task(t1, id@, i as int));
                    lemma_named_at(t1, id@, i as int);
                }
                note
            },
        }
    }

    /// Records a task's result: it completes when the result is a success and fails
    /// otherwise, leaving the queue; the engine goes idle. Returns the notification.
    pub fn finish_task(&mut self, id: &str, result: TaskResult) -> (r: AgentNotification)
        ensures
            final(self).state_of() == AgentState::Idle,
            result.success ==> (r matches AgentNotification::TaskCompleted { task_id, summary } && task_id@ == id@ && summary == result.summary),
            !result.success ==> (r matches AgentNotification::TaskFailed { task_id, error } && task_id@ == id@ && error == result.summary),
            match task_named(old(self).queue_of().task_list(), id@) {
                None => final(self).queue_of().task_list() == old(self).queue_of().task_list(),
                Some(t) => task_named(final(self).queue_of().task_list(), id@) == Some(Task {
                    result: Some(result),
                    status: if result.success { TaskStatus::Completed } else { TaskStatus::Failed },
                    ..t
                }),
            },
            task_named(old(self).queue_of().task_list(), id@) is Some ==>
                final(self).queue_of().queued() == crate::agent::task::without_id(old(self).queue_of().queued(), id@),
    {
        let success = result.success;
        let summary = result.summary.clone();
        let ghost res = result;
        let ghost t0 = self.queue.task_list();
        match self.queue.take(id) {
            Some((i, mut task)) => {
                proof { lemma_named_at(t0, id@, i as int); }
                task.result = Some(result);
                task.status = if success { TaskStatus::Completed } else { TaskStatus::Failed };
                let ghost nt = task;
                self.queue.restore(i, task);
                proof {
                    let t1 = self.queue.task_list();
                    assert(t1 == t0.update(i as int, nt));
                    assert(first_task(t1, id@, i as int));
                    lemma_named_at(t1, id@, i as int);
                }
                self.queue.remove_from_queue(id);
            },
            None => {
                proof { assert(task_named(t0, id@) is None); }
            },
        }
        self.state = AgentState::Idle;
        if success {
            AgentNotification::TaskCompleted { task_id: owned(id), summary }
        } else {
            AgentNotification::TaskFailed { task_id: owned(id), error: summary }
        }
    }

    /// Pauses the agent.
    pub fn pause(&mut self)
        ensures
            final(self).state_of() == AgentState::Paused,
            final(self).queue_of() == old(self).queue_of(),
    {
        self.state = AgentState::Paused;
    }

    /// Resumes the agent.
    pub fn resume(&mut self)
        ensures
            final(self).state_of() == AgentState::Idle,
            final(self).queue_of() == old(self).queue_of(),
    {
        self.state = AgentState::Idle;
    }

    /// The agent's state.
    pub fn state(&self) -> (r: AgentState)
        ensures
            r == self.state_of(),
    {
        self.state
    }

    /// The number of tasks waiting to run.
    pub fn pending_count(&self) -> (r: usize)
        ensures
            r == self.queue_of().queued().filter(|id: String| crate::agent::task::is_waiting(self.queue_of().task_list(), id@)).len(),
    {
        self.queue.pending_count()
    }

    /// Whether the agent is enabled.
    pub fn is_enabled(&self) -> (r: bool)
        ensures
            r == self.enabled_flag(),
    {
        self.enabled
    }
}

/// The task named `id` is the one at its first position.
pub proof fn lemma_named_at(s: Seq<Task>, id: Seq<char>, i: int)
    requires
        first_task(s, id, i),
    ensures
        task_named(s, id) == Some(s[i]),
{
    let k = choose|k: int| first_task(s, id, k);
    if k < i {
        assert(s[k].id@ != id);
    } else if i < k {
        assert(s[i].id@ != id);
    }
}

} // verus!
