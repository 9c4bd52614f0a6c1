//! Judging a finished task: whether it succeeded, what its steps produced, and
//! how it is summarised.
//!
//! Asking the model for a summary is the caller's; the prompt, the fallback
//! summary and the result are decided here.

use vstd::prelude::*;
use crate::agent::types::{step_status_name, Step, StepIteration, StepStatus, Task, TaskResult};
use crate::text::{contains, contains_seq, decimal, join, join_seq, owned, truncatable, truncate_str, truncated,
    u64_to_string, views, byte_len};

verus! {

/// Whether every step completed or was skipped.
pub open spec fn all_steps_done(steps: Seq<Step>) -> bool {
    forall|i: int| 0 <= i < steps.len() ==>
        (#[trigger] steps[i]).status == StepStatus::Completed || steps[i].status == StepStatus::Skipped
}

/// The number of steps with the given status.
pub open spec fn steps_with(steps: Seq<Step>, s: StepStatus) -> nat
    decreases steps.len(),
{
    if steps.len() == 0 {
        0
    } else {
        steps_with(steps.drop_last(), s) + if steps.last().status == s { 1nat } else { 0nat }
    }
}

/// The descriptions of the failed steps, in order.
pub open spec fn failed_descriptions(steps: Seq<Step>) -> Seq<Seq<char>>
    decreases steps.len(),
{
    if steps.len() == 0 {
        Seq::empty()
    } else {
        let rest = failed_descriptions(steps.drop_last());
        if steps.last().status == StepStatus::Failed { rest.push(steps.last().description@) } else { rest }
    }
}

/// `true` or `false`, as `Display` prints a boolean.
pub open spec fn bool_text(b: bool) -> Seq<char> {
    if b { "true"@ } else { "false"@ }
}

/// The summary used when the model gives none.
pub open spec fn fallback_summary(task: Task, success: bool) -> Seq<char> {
    if success {
        "Task '"@ + task.title@ + "' completed successfully ("@ + decimal(steps_with(task.steps@, StepStatus::Completed))
            + "/"@ + decimal(task.steps@.len()) + " steps)"@
    } else {
        "Task '"@ + task.title@ + "' failed. Failed steps: "@ + join_seq(failed_descriptions(task.steps@), ", "@)
    }
}

/// One line per step for the summary prompt.
pub open spec fn step_lines(steps: Seq<Step>) -> Seq<Seq<char>> {
    steps.map_values(|s: Step| "- "@ + s.description@ + " ("@ + step_status_name(s.status) + ")"@)
}

/// The prompt asking the model to summarise the task.
pub open spec fn summary_prompt_text(task: Task, success: bool) -> Seq<char> {
    "Summarize the task result in 1-2 sentences:\nTask: "@ + task.title@ + "\nDescription: "@ + task.description@
        + "\nSuccess: "@ + bool_text(success) + "\nSteps completed: "@
        + decimal(steps_with(task.steps@, StepStatus::Completed)) + " of "@ + decimal(task.steps@.len())
        + "\nSteps:\n"@ + join_seq(step_lines(task.steps@), "\n"@)
}

/// Whether every observation can be cut at 500 bytes.
pub open spec fn outputs_truncatable(steps: Seq<Step>) -> bool {
    forall|i: int, j: int| 0 <= i < steps.len() && 0 <= j < steps[i].iterations@.len() ==>
        truncatable((#[trigger] steps[i].iterations@[j]).observation@, 500)
}

/// The report of one iteration.
pub open spec fn iteration_text(it: StepIteration) -> Seq<char> {
    "\n### Iteration "@ + decimal((it.iteration + 1) as nat) + "\n"@
        + "Thought: "@ + it.thought@ + "\n"@
        + "Action: "@ + it.action@ + "\n"@
        + "Observation: "@ + truncated(it.observation@, 500) + "\n"@
        + "Success: "@ + bool_text(it.success) + "\n"@
}

/// The reports of a step's iterations, concatenated.
pub open spec fn iterations_text(its: Seq<StepIteration>) -> Seq<char>
    decreases its.len(),
{
    if its.len() == 0 { Seq::empty() } else { iterations_text(its.drop_last()) + iteration_text(its.last()) }
}

/// The report of one step.
pub open spec fn step_text(s: Step) -> Seq<char> {
    "## Step: "@ + s.description@ + "\n"@ + "Status: "@ + step_status_name(s.status) + "\n"@
        + iterations_text(s.iterations@) + "\n---\n\n"@
}

/// The reports of all steps, concatenated.
pub open spec fn output_text(steps: Seq<Step>) -> Seq<char>
    decreases steps.len(),
{
    if steps.len() == 0 { Seq::empty() } else { output_text(steps.drop_last()) + step_text(steps.last()) }
}

/// The output patterns taken as signs of failure.
pub open spec fn error_patterns() -> Seq<Seq<char>> {
    seq!["error:"@, "Error:"@, "ERROR:"@, "failed"@, "Failed"@, "FAILED"@, "exception"@, "Exception"@,
        "panic"@, "Panic"@, "not found"@, "permission denied"@]
}

/// Whether a step's output counts as success: a short output (under 500 bytes)
/// fails when it contains an error pattern; anything else succeeds.
pub open spec fn output_ok(output: Seq<char>) -> bool {
    !(byte_len(output) < 500 && exists|i: int| 0 <= i < error_patterns().len()
        && contains_seq(output, #[trigger] error_patterns()[i]))
}

fn bool_string(b: bool) -> (r: String)
    ensures
        r@ == bool_text(b),
{
    if b { owned("true") } else { owned("false") }
}

/// Evaluates task results and generates summaries.
pub struct ResultEvaluator {}

impl ResultEvaluator {
    /// An evaluator.
    pub fn new() -> (r: ResultEvaluator)
        ensures
            r == (ResultEvaluator {}),
    {
        ResultEvaluator {}
    }

    /// Whether the task succeeded: every step completed or was skipped.
    pub fn calculate_success(&self, task: &Task) -> (r: bool)
        ensures
            r == all_steps_done(task.steps@),
    {
        let mut i: usize = 0;
        while i < task.steps.len()
            invariant
                i <= task.steps.len(),
                forall|j: int| 0 <= j < i ==>
                    (#[trigger] task.steps@[j]).status == StepStatus::Completed || task.steps@[j].status == StepStatus::Skipped,
            decreases task.steps.len() - i,
        {
            let st = task.steps[i].status;
            if !(st == StepStatus::Completed || st == StepStatus::Skipped) {
                return false;
            }
            i = i + 1;
        }
        true
    }

    fn count_steps(steps: &Vec<Step>, s: StepStatus) -> (r: usize)
        ensures
            r == steps_with(steps@, s),
    {
        let mut n: usize = 0;
        let mut i: usize = 0;
        while i < steps.len()
            invariant
                i <= steps.len(),
                n == steps_with(steps@.take(i as int), s),
                n <= i,
            decreases steps.len() - i,
        {
            assert(steps@.take(i + 1).drop_last() =~= steps@.take(i as int));
            if steps[i].status == s {
                n = n + 1;
            }
            i = i + 1;
        }
        assert(steps@.take(steps@.len() as int) =~= steps@);
        n
    }

    /// The prompt asking the model to summarise the task.
    pub fn summary_prompt(&self, task: &Task, success: bool) -> (r: String)
        ensures
            r@ == summary_prompt_text(*task, success),
    {
        let completed = ResultEvaluator::count_steps(&task.steps, StepStatus::Completed);
        let mut lines: Vec<String> = Vec::new();
        let mut i: usize = 0;
        while i < task.steps.len()
            invariant
                i <= task.steps.len(),
                lines@.len() == i,
                views(lines@) == step_lines(task.steps@.take(i as int)),
            decreases task.steps.len() - i,
        {
            let s = &task.steps[i];
            let ghost before = lines@;
            lines.push(owned("- ").concat(s.description.as_str()).concat(" (").concat(s.status.as_str()).concat(")"));
            proof {
                let a = views(lines@);
                let b = step_lines(task.steps@.take(i + 1));
                assert forall|j: int| 0 <= j < a.len() implies a[j] == b[j] by {
                    if j < i {
                        assert(lines@[j] == before[j]);
                        assert(views(before)[j] == step_lines(task.steps@.take(i as int))[j]);
                        assert(task.steps@.take(i as int)[j] == task.steps@.take(i + 1)[j]);
                    } else {
                        assert(task.steps@.take(i + 1)[j] == task.steps@[i as int]);
                    }
                }
                assert(a =~= b);
            }
            i = i + 1;
        }
        assert(task.steps@.take(task.steps@.len() as int) =~= task.steps@);
        owned("Summarize the task result in 1-2 sentences:\nTask: ").concat(task.title.as_str())
            .concat("\nDescription: ").concat(task.description.as_str())
            .concat("\nSuccess: ").concat(bool_string(success).as_str())
            .concat("\nSteps completed: ").concat(u64_to_string(completed as u64).as_str())
            .concat(" of ").concat(u64_to_string(task.steps.len() as u64).as_str())
            .concat("\nSteps:\n").concat(join(&lines, "\n").as_str())
    }

    /// The summary used when the model gives none.
    pub fn fallback_summary(&self, task: &Task, success: bool) -> (r: String)
        ensures
            r@ == fallback_summary(*task, success),
    {
        if success {
            let completed = ResultEvaluator::count_steps(&task.steps, StepStatus::Completed);
            owned("Task '").concat(task.title.as_str()).concat("' completed successfully (")
                .concat(u64_to_string(completed as u64).as_str()).concat("/")
                .concat(u64_to_string(task.steps.len() as u64).as_str()).concat(" steps)")
        } else {
            let mut failed: Vec<String> = Vec::new();
            let mut i: usize = 0;
            while i < task.steps.len()
                invariant
                    i <= task.steps.len(),
                    views(failed@) == failed_descriptions(task.steps@.take(i as int)),
                decreases task.steps.len() - i,
            {
                assert(task.steps@.take(i + 1).drop_last() =~= task.steps@.take(i as int));
                if task.steps[i].status == StepStatus::Failed {
                    failed.push(task.steps[i].description.clone());
                }
                assert(views(failed@) =~= failed_descriptions(task.steps@.take(i + 1)));
                i = i + 1;
            }
            assert(task.steps@.take(task.steps@.len() as int) =~= task.steps@);
            owned("Task '").concat(task.title.as_str()).concat("' failed. Failed steps: ").concat(join(&failed, ", ").as_str())
        }
    }

    /// The summary: the model's reply when there is one, the fallback otherwise.
    pub fn generate_summary(&self, task: &Task, success: bool, reply: Option<String>) -> (r: String)
        ensures
            match reply {
                Some(s) => r == s,
                None => r@ == fallback_summary(*task, success),
            },
    {
        match reply {
            Some(s) => s,
            None => self.fallback_summary(task, success),
        }
    }

    /// The report of one iteration.
    fn iteration_report(it: &StepIteration) -> (r: String)
        requires
            truncatable(it.observation@, 500),
        ensures
            r@ == iteration_text(*it),
    {
        let mut out = owned("\n### Iteration ");
        out.append(u64_to_string(it.iteration as u64 + 1).as_str());
        out.append("\nThought: ");
        out.append(it.thought.as_str());
        out.append("\nAction: ");
        out.append(it.action.as_str());
        out.append("\nObservation: ");
        out.append(truncate_str(it.observation.as_str(), 500).as_str());
        out.append("\nSuccess: ");
        out.append(bool_string(it.success).as_str());
        out.append("\n");
        proof {
            reveal_strlit("\n### Iteration ");
            reveal_strlit("\nThought: ");
            reveal_strlit("\nAction: ");
            reveal_strlit("\nObservation: ");
            reveal_strlit("\nSuccess: ");
            reveal_strlit("\n");
            reveal_strlit("Thought: ");
            reveal_strlit("Action: ");
            reveal_strlit("Observation: ");
            reveal_strlit("Success: ");
        }
        assert(out@ =~= iteration_text(*it));
        out
    }

    /// The report of one step.
    fn step_report(step: &Step) -> (r: String)
        requires
            forall|j: int| 0 <= j < step.iterations@.len() ==> truncatable((#[trigger] step.iterations@[j]).observation@, 500),
        ensures
            r@ == step_text(*step),
    {
        let mut body = String::new();
        let mut j: usize = 0;
        while j < step.iterations.len()
            invariant
                j <= step.iterations.len(),
                forall|k: int| 0 <= k < step.iterations@.len() ==> truncatable((#[trigger] step.iterations@[k]).observation@, 500),
                body@ == iterations_text(step.iterations@.take(j as int)),
            decreases step.iterations.len() - j,
        {
            assert(step.iterations@.take(j + 1).drop_last() =~= step.iterations@.take(j as int));
            let rep = ResultEvaluator::iteration_report(&step.iterations[j]);
            body.append(rep.as_str());
            j = j + 1;
        }
        assert(step.iterations@.take(step.iterations@.len() as int) =~= step.iterations@);
        let mut out = owned("## Step: ");
        out.append(step.description.as_str());
        out.append("\nStatus: ");
        out.append(step.status.as_str());
        out.append("\n");
        out.append(body.as_str());
        out.append("\n---\n\n");
        proof {
            reveal_strlit("\nStatus: ");
            reveal_strlit("Status: ");
            reveal_strlit("\n");
        }
        assert(out@ =~= step_text(*step));
        out
    }

    /// The detailed output of all steps and their iterations.
    pub fn collect_output(&self, task: &Task) -> (r: String)
        requires
            outputs_truncatable(task.steps@),
        ensures
            r@ == output_text(task.steps@),
    {
        let mut output = String::new();
        let mut i: usize = 0;
        while i < task.steps.len()
            invariant
                i <= task.steps.len(),
                outputs_truncatable(task.steps@),
                output@ == output_text(task.steps@.take(i as int)),
            decreases task.steps.len() - i,
        {
            assert(task.steps@.take(i + 1).drop_last() =~= task.steps@.take(i as int));
            let step = &task.steps[i];
            assert forall|j: int| 0 <= j < step.iterations@.len() implies truncatable((#[trigger] step.iterations@[j]).observation@, 500) by {
                assert(task.steps@[i as int].iterations@[j] == step.iterations@[j]);
            }
            let rep = ResultEvaluator::step_report(step);
            output.append(rep.as_str());
            i = i + 1;
        }
        assert(task.steps@.take(task.steps@.len() as int) =~= task.steps@);
        output
    }

    /// The result of a finished task, given the summary chosen for it.
    pub fn evaluate(&self, task: &Task, duration_secs: u64, summary: String) -> (r: TaskResult)
        requires
            outputs_truncatable(task.steps@),
        ensures
            r.success == all_steps_done(task.steps@),
            r.summary == summary,
            r.output@ == output_text(task.steps@),
            r.tokens_used == task.tokens_used,
            r.duration_secs == duration_secs,
    {
        let success = self.calculate_success(task);
        let output = self.collect_output(task);
        TaskResult { success, summary, output, tokens_used: task.tokens_used, duration_secs }
    }

    /// Whether a step's output counts as success.
    pub fn evaluate_step_output(&self, _step: &Step, output: &str) -> (r: bool)
        ensures
            r == output_ok(output@),
    {
        if output.len() < 500 {
            let mut pats: Vec<&str> = Vec::new();
            pats.push("error:");
            pats.push("Error:");
            pats.push("ERROR:");
            pats.push("failed");
            pats.push("Failed");
            pats.push("FAILED");
            pats.push("exception");
            pats.push("Exception");
            pats.push("panic");
            pats.push("Panic");
            pats.push("not found");
            pats.push("permission denied");
            assert(pats@.map_values(|p: &str| p@) =~= error_patterns());
            let mut i: usize = 0;
            while i < pats.len()
                invariant
                    i <= pats.len(),
                    byte_len(output@) < 500,
                    pats@.map_values(|p: &str| p@) == error_patterns(),
                    forall|k: int| 0 <= k < i ==> !contains_seq(output@, #[trigger] error_patterns()[k]),
                decreases pats.len() - i,
            {
                assert(pats@[i as int]@ == error_patterns()[i as int]);
                if contains(output, pats[i]) {
                    assert(contains_seq(output@, error_patterns()[i as int]));
                    assert(byte_len(output@) < 500);
                    return false;
                }
                i = i + 1;
            }
        }
        true
    }
}

} // verus!
