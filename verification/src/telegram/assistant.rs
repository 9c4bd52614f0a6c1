//! The bot's answers about coding sessions and agent tasks.

use vstd::prelude::*;
use crate::agent::types::{AgentState, Step, StepStatus, Task, TaskStatus};
use crate::coding::manager::{format_session, session_line};
use crate::coding::types::{ClaudeStatus, SessionInfo};
use crate::clock::{format_stamp_minute, in_range, stamp_minute};
use crate::http::api::{find_task, names_task};
use crate::telegram::reply::{capped, lines_of, listing, note_more, under_heading};
use crate::telegram::services::{failure, failure_text};
use crate::text::{
    byte_len, byte_prefix, cuttable, decimal, owned, prefix_bytes, truncatable, truncate_str, truncated,
    u64_to_string, views,
};

verus! {

/// The most answer text, in bytes, passed on from the model.
pub const MAX_ANSWER_BYTES: usize = 4000;

// ---------------------------------------------------------------------------
// Coding sessions
// ---------------------------------------------------------------------------

/// The `/code status` answer.
pub open spec fn claude_status_text(s: ClaudeStatus) -> Seq<char> {
    listing(
        "Coding Status:"@,
        seq![
            "  API Key: "@ + (if s.api_key_configured { "configured"@ } else { "not configured"@ }),
            "  Sessions: "@ + decimal(s.active_sessions as nat) + "/"@ + decimal(s.max_sessions as nat),
            "  Workspace: "@ + s.workspace_dir@,
        ],
    )
}

/// Formats the `/code status` answer.
pub fn format_claude_status(s: &ClaudeStatus) -> (r: String)
    ensures
        r@ == claude_status_text(*s),
{
    let mut body: Vec<String> = Vec::new();
    body.push(owned("  API Key: ").concat(if s.api_key_configured { "configured" } else { "not configured" }));
    body.push(
        owned("  Sessions: ").concat(u64_to_string(s.active_sessions as u64).as_str()).concat("/").concat(
            u64_to_string(s.max_sessions as u64).as_str(),
        ),
    );
    body.push(owned("  Workspace: ").concat(s.workspace_dir.as_str()));
    assert(views(body@) =~= seq![
        "  API Key: "@ + (if s.api_key_configured { "configured"@ } else { "not configured"@ }),
        "  Sessions: "@ + decimal(s.active_sessions as nat) + "/"@ + decimal(s.max_sessions as nat),
        "  Workspace: "@ + s.workspace_dir@,
    ]);
    under_heading("Coding Status:", body)
}

fn indented_session(s: &SessionInfo) -> (r: String)
    ensures
        r@ == "  "@ + session_line(*s),
{
    owned("  ").concat(format_session(s).as_str())
}

/// The `/code list` answer.
pub open spec fn claude_sessions_text(ss: Seq<SessionInfo>) -> Seq<char> {
    if ss.len() == 0 {
        "No coding sessions."@
    } else {
        listing("Coding Sessions:"@, Seq::new(ss.len(), |i: int| "  "@ + session_line(ss[i])))
    }
}

/// Formats the `/code list` answer.
pub fn format_claude_sessions(ss: &Vec<SessionInfo>) -> (r: String)
    ensures
        r@ == claude_sessions_text(ss@),
{
    if ss.len() == 0 {
        return owned("No coding sessions.");
    }
    let body = lines_of(ss, ss.len(), indented_session);
    assert(views(body@) =~= Seq::new(ss@.len(), |i: int| "  "@ + session_line(ss@[i])));
    under_heading("Coding Sessions:", body)
}

/// The answer to `/code new`: the new session, or the error.
pub open spec fn new_session_text(outcome: Result<SessionInfo, Seq<char>>) -> Seq<char> {
    match outcome {
        Ok(s) => "Started coding session:\n  ID: "@ + s.id@ + "\n  Workspace: "@ + s.workspace@ + "\n  PID: "@
            + match s.pid {
            Some(p) => decimal(p as nat),
            None => "N/A"@,
        },
        Err(e) => failure_text("Error starting session"@, e),
    }
}

/// Formats the answer to `/code new`.
pub fn new_session_reply(outcome: &Result<SessionInfo, String>) -> (r: String)
    ensures
        r@ == new_session_text(match outcome {
            Ok(s) => Ok(*s),
            Err(e) => Err(e@),
        }),
{
    match outcome {
        Ok(s) => {
            let pid = match s.pid {
                Some(p) => u64_to_string(p as u64),
                None => owned("N/A"),
            };
            owned("Started coding session:\n  ID: ").concat(s.id.as_str()).concat("\n  Workspace: ").concat(
                s.workspace.as_str(),
            ).concat("\n  PID: ").concat(pid.as_str())
        },
        Err(e) => failure("Error starting session", e.as_str()),
    }
}

/// The answer to `/code stop`.
pub open spec fn stop_session_text(id: Seq<char>, outcome: Result<(), Seq<char>>) -> Seq<char> {
    match outcome {
        Ok(_) => "Stopped session: "@ + id,
        Err(e) => failure_text("Error stopping session"@, e),
    }
}

/// Formats the answer to `/code stop`.
pub fn stop_session_reply(id: &str, outcome: &Result<(), String>) -> (r: String)
    ensures
        r@ == stop_session_text(id@, match outcome {
            Ok(_) => Ok(()),
            Err(e) => Err(e@),
        }),
{
    match outcome {
        Ok(_) => owned("Stopped session: ").concat(id),
        Err(e) => failure("Error stopping session", e.as_str()),
    }
}

/// The answer to `/code ask`: the model's answer, cut after [`MAX_ANSWER_BYTES`]
/// bytes with a note that it was truncated, or the error.
pub open spec fn ask_text(outcome: Result<Seq<char>, Seq<char>>) -> Seq<char> {
    match outcome {
        Ok(a) => if byte_len(a) > MAX_ANSWER_BYTES {
            byte_prefix(a, MAX_ANSWER_BYTES) + "...\n\n(truncated)"@
        } else {
            a
        },
        Err(e) => "Error: "@ + e,
    }
}

/// Formats the answer to `/code ask`.
pub fn ask_reply(outcome: &Result<String, String>) -> (r: String)
    requires
        outcome is Ok ==> cuttable(outcome->Ok_0@, MAX_ANSWER_BYTES),
    ensures
        r@ == ask_text(match outcome {
            Ok(a) => Ok(a@),
            Err(e) => Err(e@),
        }),
{
    match outcome {
        Ok(a) => if a.as_str().len() > MAX_ANSWER_BYTES {
            prefix_bytes(a.as_str(), MAX_ANSWER_BYTES).concat("...\n\n(truncated)")
        } else {
            owned(a.as_str())
        },
        Err(e) => owned("Error: ").concat(e.as_str()),
    }
}

// ---------------------------------------------------------------------------
// Agent
// ---------------------------------------------------------------------------

/// Whether an id can be shown by its first eight bytes, as the answers do.
pub open spec fn short_id_ok(id: Seq<char>) -> bool {
    byte_len(id) >= 8 && cuttable(id, 8)
}

/// The first eight bytes of an id.
pub open spec fn short_id(id: Seq<char>) -> Seq<char> {
    byte_prefix(id, 8)
}

fn short(id: &str) -> (r: String)
    requires
        short_id_ok(id@),
    ensures
        r@ == short_id(id@),
{
    prefix_bytes(id, 8)
}

/// The word for the engine's state.
pub open spec fn agent_state_word(s: AgentState) -> Seq<char> {
    match s {
        AgentState::Idle => "idle"@,
        AgentState::Processing => "processing"@,
        AgentState::Paused => "paused"@,
    }
}

/// The `/agent status` answer.
pub open spec fn agent_status_text(state: AgentState, pending: usize, enabled: bool) -> Seq<char> {
    listing(
        "Agent Status:"@,
        seq![
            "  State: "@ + agent_state_word(state),
            "  Pending Tasks: "@ + decimal(pending as nat),
            "  Enabled: "@ + (if enabled { "true"@ } else { "false"@ }),
        ],
    )
}

/// Formats the `/agent status` answer.
pub fn format_agent_status(state: AgentState, pending: usize, enabled: bool) -> (r: String)
    ensures
        r@ == agent_status_text(state, pending, enabled),
{
    let word = match state {
        AgentState::Idle => "idle",
        AgentState::Processing => "processing",
        AgentState::Paused => "paused",
    };
    let mut body: Vec<String> = Vec::new();
    body.push(owned("  State: ").concat(word));
    body.push(owned("  Pending Tasks: ").concat(u64_to_string(pending as u64).as_str()));
    body.push(owned("  Enabled: ").concat(if enabled { "true" } else { "false" }));
    assert(views(body@) =~= seq![
        "  State: "@ + agent_state_word(state),
        "  Pending Tasks: "@ + decimal(pending as nat),
        "  Enabled: "@ + (if enabled { "true"@ } else { "false"@ }),
    ]);
    under_heading("Agent Status:", body)
}

/// The short word for a task's status in the task list.
pub open spec fn task_glyph(s: TaskStatus) -> Seq<char> {
    match s {
        TaskStatus::Queued => "WAIT"@,
        TaskStatus::Planning => "PLAN"@,
        TaskStatus::Executing => "RUN"@,
        TaskStatus::AwaitingInput => "INPUT"@,
        TaskStatus::Completed => "OK"@,
        TaskStatus::Failed => "ERR"@,
        TaskStatus::Cancelled => "X"@,
    }
}

/// The most tasks the task list shows.
pub const TASKS_SHOWN: usize = 10;

/// Whether a task can be shown in the task list.
pub open spec fn task_line_ok(t: Task) -> bool {
    short_id_ok(t.id@) && truncatable(t.title@, 40)
}

/// A task's line in the task list: status word, short id and title cut to 40 bytes.
pub open spec fn task_line_text(t: Task) -> Seq<char> {
    "  "@ + task_glyph(t.status) + " ["@ + short_id(t.id@) + "] "@ + truncated(t.title@, 40)
}

fn task_line(t: &Task) -> (r: String)
    requires
        task_line_ok(*t),
    ensures
        r@ == task_line_text(*t),
{
    let word = match t.status {
        TaskStatus::Queued => "WAIT",
        TaskStatus::Planning => "PLAN",
        TaskStatus::Executing => "RUN",
        TaskStatus::AwaitingInput => "INPUT",
        TaskStatus::Completed => "OK",
        TaskStatus::Failed => "ERR",
        TaskStatus::Cancelled => "X",
    };
    owned("  ").concat(word).concat(" [").concat(short(t.id.as_str()).as_str()).concat("] ").concat(
        truncate_str(t.title.as_str(), 40).as_str(),
    )
}

/// The `/agent list` answer: the first ten tasks, and how many more there are.
pub open spec fn agent_tasks_text(ts: Seq<Task>) -> Seq<char> {
    if ts.len() == 0 {
        "No tasks."@
    } else {
        let n = if ts.len() < TASKS_SHOWN { ts.len() } else { TASKS_SHOWN as nat };
        listing("Tasks:"@, capped(Seq::new(n, |i: int| task_line_text(ts[i])), ts.len(), TASKS_SHOWN as nat))
    }
}

/// Formats the `/agent list` answer.
pub fn format_agent_tasks(ts: &Vec<Task>) -> (r: String)
    requires
        forall|i: int| 0 <= i < ts.len() && i < TASKS_SHOWN ==> task_line_ok(#[trigger] ts@[i]),
    ensures
        r@ == agent_tasks_text(ts@),
{
    if ts.len() == 0 {
        return owned("No tasks.");
    }
    let mut body = lines_of(ts, TASKS_SHOWN, task_line);
    let ghost n = if ts@.len() < TASKS_SHOWN { ts@.len() } else { TASKS_SHOWN as nat };
    assert(views(body@) =~= Seq::new(n, |i: int| task_line_text(ts@[i])));
    note_more(&mut body, ts.len(), TASKS_SHOWN);
    under_heading("Tasks:", body)
}

/// The word for a task's status in a task's details.
pub open spec fn task_status_word(s: TaskStatus) -> Seq<char> {
    match s {
        TaskStatus::Queued => "queued"@,
        TaskStatus::Planning => "planning"@,
        TaskStatus::Executing => "executing"@,
        TaskStatus::AwaitingInput => "awaiting input"@,
        TaskStatus::Completed => "completed"@,
        TaskStatus::Failed => "failed"@,
        TaskStatus::Cancelled => "cancelled"@,
    }
}

/// The short word for a step's status.
pub open spec fn step_glyph(s: StepStatus) -> Seq<char> {
    match s {
        StepStatus::Pending => "-"@,
        StepStatus::Running => ">"@,
        StepStatus::Completed => "OK"@,
        StepStatus::Failed => "X"@,
        StepStatus::Skipped => "~"@,
    }
}

/// The most steps a task's details show.
pub const STEPS_SHOWN: usize = 5;

/// A step's line: status word, its number from one, and its description cut to 30 bytes.
pub open spec fn step_line_text(s: Step, i: int) -> Seq<char> {
    "    "@ + step_glyph(s.status) + " "@ + decimal((i + 1) as nat) + " "@ + truncated(s.description@, 30)
}

/// Whether a task's details can be shown.
pub open spec fn task_detail_ok(t: Task) -> bool {
    &&& short_id_ok(t.id@)
    &&& in_range(t.created_at as int)
    &&& forall|i: int| 0 <= i < t.steps.len() && i < STEPS_SHOWN ==> truncatable((#[trigger] t.steps@[i]).description@, 30)
    &&& (t.result matches Some(res) ==> truncatable(res.summary@, 100))
}

/// The lines of a task's details after the first.
pub open spec fn task_detail_lines(t: Task) -> Seq<Seq<char>> {
    let n = if t.steps.len() < STEPS_SHOWN { t.steps.len() as nat } else { STEPS_SHOWN as nat };
    seq![
        "  ID: "@ + short_id(t.id@),
        "  Status: "@ + task_status_word(t.status),
        "  Progress: "@ + decimal(t.current_step_index as nat) + "/"@ + decimal(t.steps.len() as nat),
        "  Tokens: "@ + decimal(t.tokens_used as nat) + "/"@ + decimal(t.token_budget as nat),
        "  Created: "@ + stamp_minute(t.created_at as int),
    ] + (if t.steps.len() == 0 {
        Seq::empty()
    } else {
        seq!["  Steps:"@] + Seq::new(n, |i: int| step_line_text(t.steps@[i], i))
    }) + match t.result {
        Some(res) => seq!["  Result: "@ + truncated(res.summary@, 100)],
        None => Seq::empty(),
    }
}

/// A task's details: its title, then the lines of [`task_detail_lines`].
pub open spec fn task_detail_text(t: Task) -> Seq<char> {
    listing("Task: "@ + t.title@, task_detail_lines(t))
}

/// Whether `k` is the first task that `id` names.
pub open spec fn first_named(ts: Seq<Task>, id: Seq<char>, k: int) -> bool {
    0 <= k < ts.len() && names_task(ts[k], id) && forall|j: int| 0 <= j < k ==> !names_task(#[trigger] ts[j], id)
}

fn step_lines(t: &Task) -> (r: Vec<String>)
    requires
        forall|i: int| 0 <= i < t.steps.len() && i < STEPS_SHOWN ==> truncatable((#[trigger] t.steps@[i]).description@, 30),
    ensures
        views(r@) == Seq::new(
            if t.steps.len() < STEPS_SHOWN { t.steps.len() as nat } else { STEPS_SHOWN as nat },
            |i: int| step_line_text(t.steps@[i], i),
        ),
{
    let n: usize = if t.steps.len() < STEPS_SHOWN { t.steps.len() } else { STEPS_SHOWN };
    let mut out: Vec<String> = Vec::new();
    let mut i: usize = 0;
    while i < n
        invariant
            n <= t.steps.len(),
            n <= STEPS_SHOWN,
            i <= n,
            forall|k: int| 0 <= k < t.steps.len() && k < STEPS_SHOWN ==> truncatable((#[trigger] t.steps@[k]).description@, 30),
            views(out@) == Seq::new(i as nat, |k: int| step_line_text(t.steps@[k], k)),
        decreases n - i,
    {
        let s = &t.steps[i];
        let word = match s.status {
            StepStatus::Pending => "-",
            StepStatus::Running => ">",
            StepStatus::Completed => "OK",
            StepStatus::Failed => "X",
            StepStatus::Skipped => "~",
        };
        let line = owned("    ").concat(word).concat(" ").concat(u64_to_string((i + 1) as u64).as_str()).concat(
            " ",
        ).concat(truncate_str(s.description.as_str(), 30).as_str());
        assert(line@ == step_line_text(t.steps@[i as int], i as int));
        let ghost before = views(out@);
        out.push(line);
        assert(views(out@) =~= before.push(line@));
        i = i + 1;
        assert(views(out@) =~= Seq::new(i as nat, |k: int| step_line_text(t.steps@[k], k)));
    }
    out
}

fn task_detail(t: &Task) -> (r: String)
    requires
        task_detail_ok(*t),
    ensures
        r@ == task_detail_text(*t),
{
    let word = match t.status {
        TaskStatus::Queued => "queued",
        TaskStatus::Planning => "planning",
        TaskStatus::Executing => "executing",
        TaskStatus::AwaitingInput => "awaiting input",
        TaskStatus::Completed => "completed",
        TaskStatus::Failed => "failed",
        TaskStatus::Cancelled => "cancelled",
    };
    let mut body: Vec<String> = Vec::new();
    body.push(owned("  ID: ").concat(short(t.id.as_str()).as_str()));
    body.push(owned("  Status: ").concat(word));
    body.push(
        owned("  Progress: ").concat(u64_to_string(t.current_step_index as u64).as_str()).concat("/").concat(
            u64_to_string(t.steps.len() as u64).as_str(),
        ),
    );
    body.push(
        owned("  Tokens: ").concat(u64_to_string(t.tokens_used as u64).as_str()).concat("/").concat(
            u64_to_string(t.token_budget as u64).as_str(),
        ),
    );
    body.push(owned("  Created: ").concat(format_stamp_minute(t.created_at).as_str()));
    let ghost head = views(body@);
    let ghost n = if t.steps.len() < STEPS_SHOWN { t.steps.len() as nat } else { STEPS_SHOWN as nat };
    assert(head =~= seq![
        "  ID: "@ + short_id(t.id@),
        "  Status: "@ + task_status_word(t.status),
        "  Progress: "@ + decimal(t.current_step_index as nat) + "/"@ + decimal(t.steps.len() as nat),
        "  Tokens: "@ + decimal(t.tokens_used as nat) + "/"@ + decimal(t.token_budget as nat),
        "  Created: "@ + stamp_minute(t.created_at as int),
    ]);
    if t.steps.len() > 0 {
        body.push(owned("  Steps:"));
        let steps = step_lines(t);
        crate::telegram::reply::append_lines(&mut body, &steps);
        assert(views(body@) =~= head + (seq!["  Steps:"@] + Seq::new(n, |i: int| step_line_text(t.steps@[i], i))));
    }
    let ghost with_steps = views(body@);
    assert(with_steps =~= head + (if t.steps.len() == 0 {
        Seq::empty()
    } else {
        seq!["  Steps:"@] + Seq::new(n, |i: int| step_line_text(t.steps@[i], i))
    }));
    match &t.result {
        Some(res) => {
            body.push(owned("  Result: ").concat(truncate_str(res.summary.as_str(), 100).as_str()));
        },
        None => {},
    }
    assert(views(body@) =~= with_steps + match t.result {
        Some(res) => seq!["  Result: "@ + truncated(res.summary@, 100)],
        None => Seq::empty(),
    });
    assert(views(body@) =~= task_detail_lines(*t));
    under_heading(owned("Task: ").concat(t.title.as_str()).as_str(), body)
}

/// The `/agent task` answer: the details of the first task whose id starts with
/// `id`, or that none does.
pub fn format_agent_task(ts: &Vec<Task>, id: &str) -> (r: String)
    requires
        forall|k: int| first_named(ts@, id@, k) ==> task_detail_ok(#[trigger] ts@[k]),
    ensures
        forall|k: int| first_named(ts@, id@, k) ==> r@ == task_detail_text(#[trigger] ts@[k]),
        (forall|j: int| 0 <= j < ts.len() ==> !names_task(#[trigger] ts@[j], id@)) ==> r@ == "Task "@ + id@
            + " not found."@,
{
    match find_task(ts, id) {
        Some(k) => {
            assert(first_named(ts@, id@, k as int));
            assert forall|k2: int| first_named(ts@, id@, k2) implies k2 == k by {
                if k2 < k {
                    assert(!names_task(ts@[k2], id@));
                } else if k2 > k {
                    assert(!names_task(ts@[k as int], id@));
                }
            }
            task_detail(&ts[k])
        },
        None => owned("Task ").concat(id).concat(" not found."),
    }
}

/// The answer to `/agent new`: the new task's short id, or the error.
pub open spec fn task_created_text(outcome: Result<Seq<char>, Seq<char>>) -> Seq<char> {
    match outcome {
        Ok(id) => "Task created: "@ + short_id(id),
        Err(e) => failure_text("Error creating task"@, e),
    }
}

/// Formats the answer to `/agent new`.
pub fn task_created_reply(outcome: &Result<String, String>) -> (r: String)
    requires
        outcome is Ok ==> short_id_ok(outcome->Ok_0@),
    ensures
        r@ == task_created_text(match outcome {
            Ok(id) => Ok(id@),
            Err(e) => Err(e@),
        }),
{
    match outcome {
        Ok(id) => owned("Task created: ").concat(short(id.as_str()).as_str()),
        Err(e) => failure("Error creating task", e.as_str()),
    }
}

/// The answer to `/agent cancel`.
pub open spec fn task_cancelled_text(id: Seq<char>, outcome: Result<(), Seq<char>>) -> Seq<char> {
    match outcome {
        Ok(_) => "Task "@ + id + " cancelled."@,
        Err(e) => failure_text("Error cancelling task"@, e),
    }
}

/// Formats the answer to `/agent cancel`.
pub fn task_cancelled_reply(id: &str, outcome: &Result<(), String>) -> (r: String)
    ensures
        r@ == task_cancelled_text(id@, match outcome {
            Ok(_) => Ok(()),
            Err(e) => Err(e@),
        }),
{
    match outcome {
        Ok(_) => owned("Task ").concat(id).concat(" cancelled."),
        Err(e) => failure("Error cancelling task", e.as_str()),
    }
}

/// The answer to `/agent input`.
pub open spec fn input_given_text(id: Seq<char>, outcome: Result<(), Seq<char>>) -> Seq<char> {
    match outcome {
        Ok(_) => "Input provided for task "@ + id + "."@,
        Err(e) => failure_text("Error providing input"@, e),
    }
}

/// Formats the answer to `/agent input`.
pub fn input_given_reply(id: &str, outcome: &Result<(), String>) -> (r: String)
    ensures
        r@ == input_given_text(id@, match outcome {
            Ok(_) => Ok(()),
            Err(e) => Err(e@),
        }),
{
    match outcome {
        Ok(_) => owned("Input provided for task ").concat(id).concat("."),
        Err(e) => failure("Error providing input", e.as_str()),
    }
}

/// The answer to `/agent pause` or `/agent resume`.
pub fn agent_toggled_reply(paused: bool) -> (r: &'static str)
    ensures
        r@ == (if paused { "Agent engine paused."@ } else { "Agent engine resumed."@ }),
{
    if paused { "Agent engine paused." } else { "Agent engine resumed." }
}

} // verus!
