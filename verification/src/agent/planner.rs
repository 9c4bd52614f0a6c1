//! Task planning: the prompt that asks for a plan, and the plan made of the reply.
//!
//! Asking the model and decoding its JSON are the caller's; what is asked, where
//! the JSON is found in the reply, and which decoded steps form the plan are
//! decided here.

use vstd::prelude::*;
use crate::agent::types::{Step, StepStatus, StepType, Task};
use crate::text::{
    contains_seq, find_chars, find_seq, is_first_occurrence, join, join_seq, occurs_at, owned, rfind_char, slice_chars,
    starts_with_seq, str_eq, string_of, trim_chars, trim_seq, chars_of, u64_to_string, decimal, views,
};

verus! {

/// Errors of planning.
#[derive(Debug)]
pub enum PlannerError {
    /// The model could not be asked.
    ClaudeApi(String),
    /// The reply holds no usable plan.
    ParseError(String),
    /// The task cannot be planned in its state.
    InvalidState,
}

/// The message of a planning error, as `Display` renders it.
pub open spec fn planner_error_text(e: PlannerError) -> Seq<char> {
    match e {
        PlannerError::ClaudeApi(m) => "Model API error: "@ + m@,
        PlannerError::ParseError(m) => "Failed to parse plan: "@ + m@,
        PlannerError::InvalidState => "Task is not in a plannable state"@,
    }
}

impl PlannerError {
    /// The error's message.
    pub fn message(&self) -> (r: String)
        ensures
            r@ == planner_error_text(*self),
    {
        match self {
            PlannerError::ClaudeApi(m) => owned("Model API error: ").concat(m.as_str()),
            PlannerError::ParseError(m) => owned("Failed to parse plan: ").concat(m.as_str()),
            PlannerError::InvalidState => owned("Task is not in a plannable state"),
        }
    }
}

/// A step as decoded from the model's JSON.
#[derive(Debug)]
pub struct RawStep {
    pub id: String,
    pub description: String,
    pub step_type: RawStepType,
    pub depends_on: Vec<String>,
}

/// A step type as decoded from the model's JSON; `kind` is its `type` field.
#[derive(Debug)]
pub struct RawStepType {
    pub kind: String,
    pub command: Option<String>,
    pub args: Option<Vec<String>>,
    pub timeout_secs: Option<u64>,
    pub workspace: Option<String>,
    pub prompt: Option<String>,
    pub system: Option<String>,
    pub operation: Option<String>,
    pub container: Option<String>,
}

/// The text of an optional string, empty when absent.
pub open spec fn or_empty(o: Option<String>) -> Seq<char> {
    match o {
        Some(s) => s@,
        None => Seq::empty(),
    }
}

/// The step a decoded step becomes, if its type is known: missing text fields are
/// empty, a missing workspace is `.`, a missing timeout 60 seconds.
pub open spec fn converted_step(raw: RawStep, r: Option<Step>) -> bool {
    let t = raw.step_type;
    let k = t.kind@;
    if is_known_kind(k) {
        &&& r is Some
        &&& r->Some_0.id == raw.id
        &&& r->Some_0.description == raw.description
        &&& r->Some_0.status == StepStatus::Pending
        &&& r->Some_0.depends_on == raw.depends_on
        &&& r->Some_0.iterations@.len() == 0
        &&& r->Some_0.max_iterations == 5
        &&& r->Some_0.tokens_used == 0
        &&& if k == "command"@ {
            r->Some_0.step_type matches StepType::Command { command, args, timeout_secs }
                && command@ == or_empty(t.command)
                && args@ == match t.args { Some(a) => a@, None => Seq::<String>::empty() }
                && timeout_secs == match t.timeout_secs { Some(s) => s, None => 60u64 }
        } else if k == "claude_code"@ {
            r->Some_0.step_type matches StepType::ClaudeCode { workspace, prompt }
                && workspace@ == match t.workspace { Some(w) => w@, None => "."@ }
                && prompt@ == or_empty(t.prompt)
        } else if k == "claude_api"@ {
            r->Some_0.step_type matches StepType::ClaudeApi { prompt, system }
                && prompt@ == or_empty(t.prompt) && system == t.system
        } else if k == "container_op"@ {
            r->Some_0.step_type matches StepType::ContainerOp { operation, container }
                && operation@ == or_empty(t.operation) && container@ == or_empty(t.container)
        } else {
            r->Some_0.step_type matches StepType::UserInput { prompt } && prompt@ == or_empty(t.prompt)
        }
    } else {
        r is None
    }
}

/// Whether a step type name is one the planner knows.
pub open spec fn is_known_kind(k: Seq<char>) -> bool {
    k == "command"@ || k == "claude_code"@ || k == "claude_api"@ || k == "container_op"@ || k == "user_input"@
}

/// The number of decoded steps of a known type.
pub open spec fn known_count(raws: Seq<RawStep>) -> nat
    decreases raws.len(),
{
    if raws.len() == 0 {
        0
    } else {
        known_count(raws.drop_last()) + if is_known_kind(raws.last().step_type.kind@) { 1nat } else { 0nat }
    }
}

/// `steps` are the decoded steps of a known type, converted, in order.
pub open spec fn plan_steps(raws: Seq<RawStep>, steps: Seq<Step>) -> bool
    decreases raws.len(),
{
    if raws.len() == 0 {
        steps.len() == 0
    } else if is_known_kind(raws.last().step_type.kind@) {
        steps.len() > 0 && converted_step(raws.last(), Some(steps.last())) && plan_steps(raws.drop_last(), steps.drop_last())
    } else {
        plan_steps(raws.drop_last(), steps)
    }
}

/// The text of the system prompt for a plan of at most `max_steps` steps.
pub open spec fn system_prompt_text(max_steps: nat) -> Seq<char> {
    "You are a task planning assistant for Henry, a home server management daemon.\nYour job is to break down user requests into concrete, executable steps.\n\nAvailable step types:\n- command: Execute a shell command (safe commands only)\n- claude_code: Use a coding session to write/modify code in a workspace\n- claude_api: Use the model API for analysis/generation tasks\n- container_op: Docker container operation (start, stop, restart)\n- user_input: Request input from the user\n\nOutput your plan as a JSON array of steps. Each step should have:\n- id: Unique string identifier (step_1, step_2, etc.)\n- description: Human-readable description\n- step_type: Object with \"type\" field and relevant parameters\n- depends_on: Array of step IDs that must complete first (optional)\n\nExample:\n```json\n[\n  {\n    \"id\": \"step_1\",\n    \"description\": \"Check current disk usage\",\n    \"step_type\": { \"type\": \"command\", \"command\": \"df\", \"args\": [\"-h\"], \"timeout_secs\": 30 },\n    \"depends_on\": []\n  },\n  {\n    \"id\": \"step_2\",\n    \"description\": \"Clean up old logs if disk is low\",\n    \"step_type\": { \"type\": \"command\", \"command\": \"find\", \"args\": [\"/var/log\", \"-name\", \"*.log.gz\", \"-mtime\", \"+30\", \"-delete\"], \"timeout_secs\": 60 },\n    \"depends_on\": [\"step_1\"]\n  }\n]\n```\n\nSafety rules:\n- Never use rm -rf on system directories\n- Never modify system files without user_input confirmation\n- Keep timeout_secs reasonable (max 300 for most commands)\n- Prefer non-destructive operations\n- Maximum "@ + decimal(max_steps) + " steps per task\n\nOnly output the JSON array, no other text."@
}

/// The context block of the user prompt: the variables as `- name: value` lines.
pub open spec fn variable_lines(vars: Seq<(String, String)>) -> Seq<Seq<char>> {
    vars.map_values(|p: (String, String)| "- "@ + p.0@ + ": "@ + p.1@)
}

/// The user prompt for a task.
pub open spec fn user_prompt_text(task: Task) -> Seq<char> {
    let ctx = if task.context.variables@.len() > 0 {
        "\n\nContext variables:\n"@ + join_seq(variable_lines(task.context.variables@), "\n"@)
    } else {
        Seq::empty()
    };
    "Task: "@ + task.title@ + "\n\nDescription: "@ + task.description@ + ctx
}

/// The JSON array in a fenced block: inside a ```json block; else inside the first
/// plain code block when that starts with `[`.
pub open spec fn json_in_blocks(text: Seq<char>) -> Option<Seq<char>> {
    let fence = seq!['`', '`', '`'];
    let json_fence = seq!['`', '`', '`', 'j', 's', 'o', 'n'];
    let from_json = match find_seq(text, json_fence) {
        Some(s) => {
            let after = text.subrange(s + 7, text.len() as int);
            match find_seq(after, fence) {
                Some(e) => Some(trim_seq(after.subrange(0, e))),
                None => None,
            }
        },
        None => None,
    };
    let from_plain = match find_seq(text, fence) {
        Some(s) => {
            let after = text.subrange(s + 3, text.len() as int);
            match find_seq(after, fence) {
                Some(e) => {
                    let content = trim_seq(after.subrange(0, e));
                    if content.len() > 0 && content[0] == '[' { Some(content) } else { None }
                },
                None => None,
            }
        },
        None => None,
    };
    if from_json is Some { from_json } else { from_plain }
}

/// Whether position `i` holds the last `c` of the text.
pub open spec fn is_last_char(text: Seq<char>, c: char, i: int) -> bool {
    0 <= i < text.len() && text[i] == c && forall|j: int| i < j < text.len() ==> text[j] != c
}

/// Whether the text holds `c`.
pub open spec fn has_char(text: Seq<char>, c: char) -> bool {
    exists|i: int| 0 <= i < text.len() && text[i] == c
}

/// The position of the last `c`.
pub open spec fn last_index_of(text: Seq<char>, c: char) -> int {
    choose|i: int| is_last_char(text, c, i)
}

/// Where the JSON array sits in a reply: in a fenced block (see
/// `json_in_blocks`), else from the first `[` to the last `]`.
pub open spec fn json_in(text: Seq<char>) -> Option<Seq<char>> {
    if json_in_blocks(text) is Some {
        json_in_blocks(text)
    } else if contains_seq(text, seq!['[']) && has_char(text, ']') {
        Some(text.subrange(find_seq(text, seq!['['])->Some_0, last_index_of(text, ']') + 1))
    } else {
        None
    }
}

/// Whether taking the text from the first `[` to the last `]` would slice
/// backwards, which the slicing does not survive.
pub open spec fn json_slice_backwards(text: Seq<char>) -> bool {
    &&& json_in_blocks(text) is None
    &&& contains_seq(text, seq!['['])
    &&& has_char(text, ']')
    &&& last_index_of(text, ']') + 1 < find_seq(text, seq!['['])->Some_0
}

proof fn lemma_last_char_unique(text: Seq<char>, c: char, i: int)
    requires
        is_last_char(text, c, i),
    ensures
        has_char(text, c),
        last_index_of(text, c) == i,
{
    assert(text[i] == c);
    let k = last_index_of(text, c);
    assert(is_last_char(text, c, k));
    if k < i {
        assert(text[i] != c);
    } else if i < k {
        assert(text[k] != c);
    }
}

/// The JSON array in a fenced block of the reply, if there is one.
fn json_from_blocks(t: &Vec<char>) -> (r: Option<Vec<char>>)
    ensures
        match r {
            Some(v) => json_in_blocks(t@) == Some(v@),
            None => json_in_blocks(t@) is None,
        },
{
    let mut fence: Vec<char> = Vec::new();
    fence.push('`');
    fence.push('`');
    fence.push('`');
    let mut json_fence: Vec<char> = Vec::new();
    json_fence.push('`');
    json_fence.push('`');
    json_fence.push('`');
    json_fence.push('j');
    json_fence.push('s');
    json_fence.push('o');
    json_fence.push('n');
    assert(fence@ =~= seq!['`', '`', '`']);
    assert(json_fence@ =~= seq!['`', '`', '`', 'j', 's', 'o', 'n']);
    let mut from_json: Option<Vec<char>> = None;
    match find_chars(t, &json_fence) {
        Some(s) => {
            proof { crate::text::lemma_first_occurrence_unique(t@, json_fence@, s as int); }
            let len = t.len();
            assert(json_fence@.len() == 7);
            assert(s + 7 <= len);
            let start: usize = s + 7;
            let after = slice_chars(t, start, t.len());
            match find_chars(&after, &fence) {
                Some(e) => {
                    proof { crate::text::lemma_first_occurrence_unique(after@, fence@, e as int); }
                    let inner = slice_chars(&after, 0, e);
                    from_json = Some(trim_chars(&inner));
                },
                None => {},
            }
        },
        None => {},
    }
    if from_json.is_some() {
        return from_json;
    }
    match find_chars(t, &fence) {
        Some(s) => {
            proof { crate::text::lemma_first_occurrence_unique(t@, fence@, s as int); }
            let len = t.len();
            assert(fence@.len() == 3);
            assert(s + 3 <= len);
            let start: usize = s + 3;
            let after = slice_chars(t, start, t.len());
            match find_chars(&after, &fence) {
                Some(e) => {
                    proof { crate::text::lemma_first_occurrence_unique(after@, fence@, e as int); }
                    let inner = slice_chars(&after, 0, e);
                    let content = trim_chars(&inner);
                    if content.len() > 0 && content[0] == '[' {
                        return Some(content);
                    }
                    None
                },
                None => None,
            }
        },
        None => None,
    }
}

/// Extracts the JSON array from a reply (which may wrap it in a Markdown code block).
pub fn extract_json_array(text: &str) -> (r: Option<String>)
    requires
        !json_slice_backwards(text@),
    ensures
        match json_in(text@) {
            Some(j) => r matches Some(s) && s@ == j,
            None => r is None,
        },
{
    let t = chars_of(text);
    match json_from_blocks(&t) {
        Some(v) => {
            return Some(string_of(v.as_slice()));
        },
        None => {},
    }
    let mut open: Vec<char> = Vec::new();
    open.push('[');
    assert(open@ =~= seq!['[']);
    match find_chars(&t, &open) {
        Some(s) => {
            proof { crate::text::lemma_first_occurrence_unique(t@, open@, s as int); }
            match rfind_char(&t, ']') {
                Some(e) => {
                    proof {
                        lemma_last_char_unique(t@, ']', e as int);
                    }
                    let len = t.len();
                    assert(e < len);
                    let v = slice_chars(&t, s, e + 1);
                    Some(string_of(v.as_slice()))
                },
                None => {
                    assert(!has_char(t@, ']'));
                    None
                },
            }
        },
        None => None,
    }
}

/// Whether taking the JSON array from a reply would slice backwards (see
/// `json_slice_backwards`); `extract_json_array` is defined on every other reply.
pub fn json_slice_backwards_exec(text: &str) -> (r: bool)
    ensures
        r == json_slice_backwards(text@),
{
    let t = chars_of(text);
    if json_from_blocks(&t).is_some() {
        return false;
    }
    let mut open: Vec<char> = Vec::new();
    open.push('[');
    assert(open@ =~= seq!['[']);
    match find_chars(&t, &open) {
        Some(s) => {
            proof { crate::text::lemma_first_occurrence_unique(t@, open@, s as int); }
            match rfind_char(&t, ']') {
                Some(e) => {
                    proof { lemma_last_char_unique(t@, ']', e as int); }
                    s > 0 && e < s - 1
                },
                None => {
                    assert(!has_char(t@, ']'));
                    false
                },
            }
        },
        None => false,
    }
}

/// Generates execution plans for tasks.
pub struct TaskPlanner {
    max_steps: usize,
    allowed_step_types: Vec<String>,
}

impl TaskPlanner {
    /// The longest plan accepted.
    pub closed spec fn step_limit(self) -> usize {
        self.max_steps
    }

    /// A planner for plans of at most ten steps.
    pub fn new() -> (r: TaskPlanner)
        ensures
            r.step_limit() == 10,
    {
        let mut allowed: Vec<String> = Vec::new();
        allowed.push(owned("command"));
        allowed.push(owned("claude_code"));
        allowed.push(owned("claude_api"));
        allowed.push(owned("container_op"));
        allowed.push(owned("user_input"));
        TaskPlanner { max_steps: 10, allowed_step_types: allowed }
    }

    /// The planner with another step limit.
    pub fn with_max_steps(self, max: usize) -> (r: TaskPlanner)
        ensures
            r.step_limit() == max,
    {
        let mut p = self;
        p.max_steps = max;
        p
    }

    /// The system prompt for planning.
    pub fn build_system_prompt(&self) -> (r: String)
        ensures
            r@ == system_prompt_text(self.step_limit() as nat),
    {
        owned("You are a task planning assistant for Henry, a home server management daemon.\nYour job is to break down user requests into concrete, executable steps.\n\nAvailable step types:\n- command: Execute a shell command (safe commands only)\n- claude_code: Use a coding session to write/modify code in a workspace\n- claude_api: Use the model API for analysis/generation tasks\n- container_op: Docker container operation (start, stop, restart)\n- user_input: Request input from the user\n\nOutput your plan as a JSON array of steps. Each step should have:\n- id: Unique string identifier (step_1, step_2, etc.)\n- description: Human-readable description\n- step_type: Object with \"type\" field and relevant parameters\n- depends_on: Array of step IDs that must complete first (optional)\n\nExample:\n```json\n[\n  {\n    \"id\": \"step_1\",\n    \"description\": \"Check current disk usage\",\n    \"step_type\": { \"type\": \"command\", \"command\": \"df\", \"args\": [\"-h\"], \"timeout_secs\": 30 },\n    \"depends_on\": []\n  },\n  {\n    \"id\": \"step_2\",\n    \"description\": \"Clean up old logs if disk is low\",\n    \"step_type\": { \"type\": \"command\", \"command\": \"find\", \"args\": [\"/var/log\", \"-name\", \"*.log.gz\", \"-mtime\", \"+30\", \"-delete\"], \"timeout_secs\": 60 },\n    \"depends_on\": [\"step_1\"]\n  }\n]\n```\n\nSafety rules:\n- Never use rm -rf on system directories\n- Never modify system files without user_input confirmation\n- Keep timeout_secs reasonable (max 300 for most commands)\n- Prefer non-destructive operations\n- Maximum ").concat(u64_to_string(self.max_steps as u64).as_str()).concat(" steps per task\n\nOnly output the JSON array, no other text.")
    }

    /// The user prompt describing the task.
    pub fn build_user_prompt(&self, task: &Task) -> (r: String)
        ensures
            r@ == user_prompt_text(*task),
    {
        let vars = &task.context.variables;
        let mut ctx = String::new();
        if vars.len() > 0 {
            let mut lines: Vec<String> = Vec::new();
            let mut i: usize = 0;
            while i < vars.len()
                invariant
                    i <= vars.len(),
                    lines@.len() == i,
                    views(lines@) == variable_lines(vars@.take(i as int)),
                decreases vars.len() - i,
            {
                let (k, v) = &vars[i];
                let ghost before = lines@;
                lines.push(owned("- ").concat(k.as_str()).concat(": ").concat(v.as_str()));
                proof {
                    let a = views(lines@);
                    let b = variable_lines(vars@.take(i + 1));
                    assert forall|j: int| 0 <= j < a.len() implies a[j] == b[j] by {
                        if j < i {
                            assert(lines@[j] == before[j]);
                            assert(views(before)[j] == variable_lines(vars@.take(i as int))[j]);
                            assert(vars@.take(i as int)[j] == vars@.take(i + 1)[j]);
                        } else {
                            assert(vars@.take(i + 1)[j] == vars@[i as int]);
                        }
                    }
                    assert(a =~= b);
                }
                i = i + 1;
            }
            assert(vars@.take(vars@.len() as int) =~= vars@);
            ctx = owned("\n\nContext variables:\n").concat(join(&lines, "\n").as_str());
        }
        owned("Task: ").concat(task.title.as_str()).concat("\n\nDescription: ").concat(task.description.as_str()).concat(ctx.as_str())
    }

    /// The step a decoded step becomes, if its type is known.
    pub fn convert_raw_step(&self, raw: RawStep) -> (r: Option<Step>)
        ensures
            converted_step(raw, r),
    {
        let t = raw.step_type;
        let k = t.kind.as_str();
        let step_type = if str_eq(k, "command") {
            StepType::Command {
                command: match t.command { Some(c) => c, None => String::new() },
                args: match t.args { Some(a) => a, None => Vec::new() },
                timeout_secs: match t.timeout_secs { Some(s) => s, None => 60 },
            }
        } else if str_eq(k, "claude_code") {
            StepType::ClaudeCode {
                workspace: match t.workspace { Some(w) => w, None => owned(".") },
                prompt: match t.prompt { Some(p) => p, None => String::new() },
            }
        } else if str_eq(k, "claude_api") {
            StepType::ClaudeApi { prompt: match t.prompt { Some(p) => p, None => String::new() }, system: t.system }
        } else if str_eq(k, "container_op") {
            StepType::ContainerOp {
                operation: match t.operation { Some(o) => o, None => String::new() },
                container: match t.container { Some(c) => c, None => String::new() },
            }
        } else if str_eq(k, "user_input") {
            StepType::UserInput { prompt: match t.prompt { Some(p) => p, None => String::new() } }
        } else {
            return None;
        };
        let mut step = Step::new(raw.id, raw.description, step_type);
        step.depends_on = raw.depends_on;
        Some(step)
    }

    /// The plan made of a reply: an error when no JSON array was found, when it did
    /// not decode (the decoder's message given), or when no decoded step has a known
    /// type; otherwise the converted steps in order, cut to the step limit.
    pub fn parse_plan_response(&self, decoded: Option<Result<Vec<RawStep>, String>>) -> (r: Result<Vec<Step>, PlannerError>)
        ensures
            match decoded {
                None => r matches Err(PlannerError::ParseError(m)) && m@ == "No JSON array found in response"@,
                Some(Err(e)) => r matches Err(PlannerError::ParseError(m)) && m@ == "JSON parse error: "@ + e@,
                Some(Ok(raws)) => if known_count(raws@) == 0 {
                    r matches Err(PlannerError::ParseError(m)) && m@ == "No valid steps in plan"@
                } else {
                    r matches Ok(v) && exists|full: Seq<Step>| #[trigger] plan_steps(raws@, full)
                        && full.len() == known_count(raws@)
                        && v@ == full.take(if full.len() < self.step_limit() { full.len() as int } else { self.step_limit() as int })
                },
            },
    {
        match decoded {
            None => Err(PlannerError::ParseError(owned("No JSON array found in response"))),
            Some(Err(e)) => Err(PlannerError::ParseError(owned("JSON parse error: ").concat(e.as_str()))),
            Some(Ok(raws)) => {
                let ghost all = raws@;
                let mut rest = raws;
                let mut out: Vec<Step> = Vec::new();
                let mut i: usize = 0;
                let n = rest.len();
                assert(all.len() == n);
                while rest.len() > 0
                    invariant
                        all.len() <= usize::MAX,
                        i + rest@.len() == all.len(),
                        rest@ == all.skip(i as int),
                        plan_steps(all.take(i as int), out@),
                        known_count(all.take(i as int)) == out@.len(),
                    decreases rest@.len(),
                {
                    let raw = rest.remove(0);
                    assert(raw == all[i as int]);
                    assert(all.take(i + 1).drop_last() =~= all.take(i as int));
                    let conv = self.convert_raw_step(raw);
                    let ghost before = out@;
                    match conv {
                        Some(step) => {
                            out.push(step);
                            assert(out@.drop_last() =~= before);
                        },
                        None => {},
                    }
                    i = i + 1;
                    assert(rest@ =~= all.skip(i as int));
                }
                assert(all.take(all.len() as int) =~= all);
                if out.len() == 0 {
                    return Err(PlannerError::ParseError(owned("No valid steps in plan")));
                }
                out.truncate(self.max_steps);
                Ok(out)
            },
        }
    }
}

} // verus!
