//! The task queue: the known tasks, and the identifiers of those waiting, highest
//! priority first.
//!
//! Saving tasks to the database is the caller's; it saves a task after each change
//! this queue reports.

use vstd::prelude::*;
use crate::agent::types::{is_terminal_status, priority_rank, task_status_name, Task, TaskPriority, TaskStatus};
use crate::text::{owned, set_pair, str_eq, with_pair};

verus! {

/// Errors of the task queue.
#[derive(Debug)]
pub enum TaskQueueError {
    /// No task has this identifier.
    TaskNotFound(String),
    /// The task's state does not allow the operation.
    InvalidState(String),
    /// The database failed (its message).
    Database(String),
    /// A task could not be encoded (the encoder's message).
    Serialization(String),
}

/// The message of a queue error, as `Display` renders it.
pub open spec fn task_queue_error_text(e: TaskQueueError) -> Seq<char> {
    match e {
        TaskQueueError::TaskNotFound(id) => "Task not found: "@ + id@,
        TaskQueueError::InvalidState(m) => "Task is in invalid state for this operation: "@ + m@,
        TaskQueueError::Database(m) => "Database error: "@ + m@,
        TaskQueueError::Serialization(m) => "Serialization error: "@ + m@,
    }
}

impl TaskQueueError {
    /// The error's message.
    pub fn message(&self) -> (r: String)
        ensures
            r@ == task_queue_error_text(*self),
    {
        match self {
            TaskQueueError::TaskNotFound(id) => owned("Task not found: ").concat(id.as_str()),
            TaskQueueError::InvalidState(m) => owned("Task is in invalid state for this operation: ").concat(m.as_str()),
            TaskQueueError::Database(m) => owned("Database error: ").concat(m.as_str()),
            TaskQueueError::Serialization(m) => owned("Serialization error: ").concat(m.as_str()),
        }
    }
}

/// Whether `i` is the first task with identifier `id`.
pub open spec fn first_task(s: Seq<Task>, id: Seq<char>, i: int) -> bool {
    0 <= i < s.len() && s[i].id@ == id && forall|j: int| 0 <= j < i ==> (#[trigger] s[j]).id@ != id
}

/// Whether some task has identifier `id`.
pub open spec fn has_task_id(s: Seq<Task>, id: Seq<char>) -> bool {
    exists|i: int| 0 <= i < s.len() && (#[trigger] s[i]).id@ == id
}

/// Whether no task has identifier `id`.
pub open spec fn no_task(s: Seq<Task>, id: Seq<char>) -> bool {
    forall|j: int| 0 <= j < s.len() ==> (#[trigger] s[j]).id@ != id
}

/// The task known under `id`: the first with that identifier.
pub open spec fn task_named(s: Seq<Task>, id: Seq<char>) -> Option<Task> {
    if exists|i: int| first_task(s, id, i) {
        Some(s[choose|i: int| first_task(s, id, i)])
    } else {
        None
    }
}

/// The rank a queued identifier sorts by: its task's priority, the lowest when the
/// task is unknown.
pub open spec fn queue_rank(tasks: Seq<Task>, id: Seq<char>) -> int {
    match task_named(tasks, id) {
        Some(t) => priority_rank(t.priority),
        None => 0,
    }
}

/// The identifiers with the given rank, in queue order.
pub open spec fn with_rank(q: Seq<String>, tasks: Seq<Task>, k: int) -> Seq<String> {
    q.filter(|id: String| queue_rank(tasks, id@) == k)
}

/// The queue sorted by priority, highest first, keeping the order among equals.
pub open spec fn sorted_queue(q: Seq<String>, tasks: Seq<Task>) -> Seq<String> {
    with_rank(q, tasks, 3) + with_rank(q, tasks, 2) + with_rank(q, tasks, 1) + with_rank(q, tasks, 0)
}

/// The table after storing `t`: it replaces the first task with its identifier, or
/// is appended.
pub open spec fn stored_task(s: Seq<Task>, t: Task, u: Seq<Task>) -> bool {
    (exists|i: int| first_task(s, t.id@, i) && u == s.update(i, t)) || (no_task(s, t.id@) && u == s.push(t))
}

/// Whether an identifier is other than `id`.
pub open spec fn other_than(id: Seq<char>) -> spec_fn(String) -> bool {
    |x: String| x@ != id
}

/// The queue without an identifier, as cancelling leaves it.
pub open spec fn without_id(q: Seq<String>, id: Seq<char>) -> Seq<String> {
    q.filter(other_than(id))
}

/// Whether queued identifier `id` names a task that is waiting.
pub open spec fn is_waiting(tasks: Seq<Task>, id: Seq<char>) -> bool {
    task_named(tasks, id) matches Some(t) && t.status == TaskStatus::Queued
}

/// `id` is the first queued identifier whose task is waiting.
pub open spec fn first_waiting(queued: Seq<String>, tasks: Seq<Task>, id: Seq<char>) -> bool {
    exists|i: int| 0 <= i < queued.len() && (#[trigger] queued[i])@ == id && is_waiting(tasks, id)
        && forall|j: int| 0 <= j < i ==> !is_waiting(tasks, (#[trigger] queued[j])@)
}

/// No queued identifier names a waiting task.
pub open spec fn none_waiting(queued: Seq<String>, tasks: Seq<Task>) -> bool {
    forall|j: int| 0 <= j < queued.len() ==> !is_waiting(tasks, (#[trigger] queued[j])@)
}

proof fn lemma_first_task_unique(s: Seq<Task>, id: Seq<char>, i: int)
    requires
        first_task(s, id, i),
    ensures
        task_named(s, id) == Some(s[i]),
{
    let k = choose|k: int| first_task(s, id, k);
    if k < i {
        assert(s[k].id@ != id);
    } else if i < k {
        assert(s[i].id@ != id);
    }
}

/// Task queue.
pub struct TaskQueue {
    /// Identifiers of the tasks to run, highest priority first.
    queue: Vec<String>,
    /// All known tasks (including finished ones).
    tasks: Vec<Task>,
}

impl TaskQueue {
    /// The queued identifiers, in order.
    pub closed spec fn queued(self) -> Seq<String> {
        self.queue@
    }

    /// The known tasks.
    pub closed spec fn task_list(self) -> Seq<Task> {
        self.tasks@
    }

    /// An empty queue.
    pub fn new() -> (r: TaskQueue)
        ensures
            r.queued().len() == 0,
            r.task_list().len() == 0,
    {
        TaskQueue { queue: Vec::new(), tasks: Vec::new() }
    }

    fn position(tasks: &Vec<Task>, id: &str) -> (r: Option<usize>)
        ensures
            match r {
                Some(i) => first_task(tasks@, id@, i as int),
                None => no_task(tasks@, id@),
            },
    {
        let mut i: usize = 0;
        while i < tasks.len()
            invariant
                i <= tasks.len(),
                forall|j: int| 0 <= j < i ==> (#[trigger] tasks@[j]).id@ != id@,
            decreases tasks.len() - i,
        {
            if str_eq(tasks[i].id.as_str(), id) {
                return Some(i);
            }
            i = i + 1;
        }
        None
    }

    fn store(&mut self, task: Task)
        ensures
            stored_task(old(self).task_list(), task, final(self).task_list()),
            final(self).queued() == old(self).queued(),
    {
        match TaskQueue::position(&self.tasks, task.id.as_str()) {
            Some(i) => {
                self.tasks.set(i, task);
            },
            None => {
                self.tasks.push(task);
            },
        }
    }

    fn rank_of(&self, id: &str) -> (r: u8)
        ensures
            r as int == queue_rank(self.task_list(), id@),
    {
        match TaskQueue::position(&self.tasks, id) {
            Some(i) => {
                proof {
                    lemma_first_task_unique(self.tasks@, id@, i as int);
                }
                match self.tasks[i].priority {
                    TaskPriority::Low => 0,
                    TaskPriority::Normal => 1,
                    TaskPriority::High => 2,
                    TaskPriority::Critical => 3,
                }
            },
            None => 0,
        }
    }

    /// Sorts the queue by priority, highest first, keeping the order among equals.
    pub fn sort_queue(&mut self)
        ensures
            final(self).queued() == sorted_queue(old(self).queued(), old(self).task_list()),
            final(self).task_list() == old(self).task_list(),
    {
        let ghost q = self.queue@;
        let ghost ts = self.tasks@;
        let mut out: Vec<String> = Vec::new();
        let mut k: u8 = 4;
        while k > 0
            invariant
                k <= 4,
                self.queue@ == q,
                self.tasks@ == ts,
                out@ == sorted_prefix(q, ts, k as int),
            decreases k,
        {
            k = k - 1;
            let mut i: usize = 0;
            let ghost base = out@;
            while i < self.queue.len()
                invariant
                    i <= self.queue.len(),
                    self.queue@ == q,
                    self.tasks@ == ts,
                    k < 4,
                    base == sorted_prefix(q, ts, k + 1),
                    out@ == base + with_rank(q.take(i as int), ts, k as int),
                decreases self.queue.len() - i,
            {
                let r = self.rank_of(self.queue[i].as_str());
                proof {
                    assert(q.take(i + 1).drop_last() =~= q.take(i as int));
                    reveal(Seq::filter);
                }
                if r == k {
                    out.push(self.queue[i].clone());
                }
                assert(out@ =~= base + with_rank(q.take(i + 1), ts, k as int));
                i = i + 1;
            }
            assert(q.take(q.len() as int) =~= q);
            assert(out@ =~= sorted_prefix(q, ts, k as int));
        }
        assert(out@ =~= sorted_queue(q, ts)) by {
            reveal_with_fuel(sorted_prefix, 5);
        }
        self.queue = out;
    }

    /// Loads tasks read back from the database: each is stored, the unfinished
    /// ones are queued, then the queue is sorted.
    pub fn load(&mut self, tasks: Vec<Task>)
        ensures
            forall|k: int| 0 <= k < tasks@.len() ==> has_task_id(final(self).task_list(), (#[trigger] tasks@[k]).id@),
    {
        let ghost all = tasks@;
        let mut rest = tasks;
        let mut i: usize = 0;
        let n = rest.len();
        assert(all.len() == n);
        while rest.len() > 0
            invariant
                all.len() <= usize::MAX,
                i + rest@.len() == all.len(),
                rest@ == all.skip(i as int),
                forall|k: int| 0 <= k < i ==> has_task_id(self.tasks@, (#[trigger] all[k]).id@),
            decreases rest@.len(),
        {
            let task = rest.remove(0);
            assert(task == all[i as int]);
            if !task.is_terminal() {
                self.queue.push(task.id.clone());
            }
            let ghost before = self.tasks@;
            self.store(task);
            proof {
                let after = self.tasks@;
                assert forall|k: int| 0 <= k < i + 1 implies has_task_id(after, (#[trigger] all[k]).id@) by {
                    if k == i {
                        if exists|p: int| first_task(before, all[k].id@, p) && after == before.update(p, all[k]) {
                            let p = choose|p: int| first_task(before, all[k].id@, p) && after == before.update(p, all[k]);
                            assert(after[p].id@ == all[k].id@);
                        } else {
                            assert(after[after.len() - 1].id@ == all[k].id@);
                        }
                    } else {
                        assert(has_task_id(before, all[k].id@));
                        let j = choose|j: int| 0 <= j < before.len() && (#[trigger] before[j]).id@ == all[k].id@;
                        if exists|p: int| first_task(before, all[i as int].id@, p) && after == before.update(p, all[i as int]) {
                            let p = choose|p: int| first_task(before, all[i as int].id@, p) && after == before.update(p, all[i as int]);
                            if p == j {
                                assert(after[j].id@ == all[i as int].id@);
                            } else {
                                assert(after[j] == before[j]);
                            }
                        } else {
                            assert(after[j] == before[j]);
                        }
                    }
                }
            }
            i = i + 1;
            assert(rest@ =~= all.skip(i as int));
        }
        assert forall|k: int| 0 <= k < all.len() implies has_task_id(self.tasks@, (#[trigger] all[k]).id@) by {}
        self.sort_queue();
    }

    /// Adds a task (already saved by the caller) to the queue, re-sorting it.
    pub fn submit(&mut self, task: Task) -> (r: String)
        ensures
            r@ == task.id@,
            final(self).queued() == sorted_queue(old(self).queued().push(r), final(self).task_list()),
            stored_task(old(self).task_list(), task, final(self).task_list()),
    {
        let id = task.id.clone();
        self.queue.push(id.clone());
        self.store(task);
        self.sort_queue();
        id
    }

    /// The identifier of the first queued task that is waiting to run.
    pub fn next_id(&self) -> (r: Option<String>)
        ensures
            match r {
                Some(id) => exists|i: int| 0 <= i < self.queued().len() && self.queued()[i] == id
                    && is_waiting(self.task_list(), id@)
                    && forall|j: int| 0 <= j < i ==> !is_waiting(self.task_list(), (#[trigger] self.queued()[j])@),
                None => forall|j: int| 0 <= j < self.queued().len() ==> !is_waiting(self.task_list(), (#[trigger] self.queued()[j])@),
            },
    {
        let mut i: usize = 0;
        while i < self.queue.len()
            invariant
                i <= self.queue.len(),
                forall|j: int| 0 <= j < i ==> !is_waiting(self.tasks@, (#[trigger] self.queue@[j])@),
            decreases self.queue.len() - i,
        {
            let waiting = match TaskQueue::position(&self.tasks, self.queue[i].as_str()) {
                Some(p) => {
                    proof {
                        lemma_first_task_unique(self.tasks@, self.queue@[i as int]@, p as int);
                    }
                    self.tasks[p].status == TaskStatus::Queued
                },
                None => false,
            };
            if waiting {
                let id = self.queue[i].clone();
                assert(self.queued()[i as int] == id && is_waiting(self.task_list(), id@));
                assert(forall|j: int| 0 <= j < i ==> !is_waiting(self.task_list(), (#[trigger] self.queued()[j])@));
                return Some(id);
            }
            i = i + 1;
        }
        None
    }

    /// The task with the identifier.
    pub fn get(&self, id: &str) -> (r: Option<&Task>)
        ensures
            match task_named(self.task_list(), id@) {
                Some(t) => r == Some(&t),
                None => r is None,
            },
    {
        match TaskQueue::position(&self.tasks, id) {
            Some(i) => {
                proof {
                    lemma_first_task_unique(self.tasks@, id@, i as int);
                }
                Some(&self.tasks[i])
            },
            None => None,
        }
    }

    /// Takes the task with the identifier out of the table for changes, leaving a
    /// placeholder; `restore` puts it back.
    pub fn take(&mut self, id: &str) -> (r: Option<(usize, Task)>)
        ensures
            match r {
                Some((i, t)) => first_task(old(self).task_list(), id@, i as int)
                    && t == old(self).task_list()[i as int]
                    && final(self).task_list().len() == old(self).task_list().len()
                    && forall|j: int| 0 <= j < old(self).task_list().len() && j != i ==>
                        #[trigger] final(self).task_list()[j] == old(self).task_list()[j],
                None => no_task(old(self).task_list(), id@) && final(self).task_list() == old(self).task_list(),
            },
            final(self).queued() == old(self).queued(),
    {
        match TaskQueue::position(&self.tasks, id) {
            Some(i) => {
                let mut t = Task::create(String::new(), String::new(), String::new(), String::new(), 0);
                std::mem::swap(&mut t, &mut self.tasks[i]);
                Some((i, t))
            },
            None => None,
        }
    }

    /// Puts a task back at the position it was taken from.
    pub fn restore(&mut self, i: usize, task: Task)
        requires
            i < old(self).task_list().len(),
        ensures
            final(self).task_list() == old(self).task_list().update(i as int, task),
            final(self).queued() == old(self).queued(),
    {
        self.tasks.set(i, task);
    }

    /// Replaces the stored task with the same identifier (or adds it).
    pub fn put(&mut self, task: Task)
        ensures
            stored_task(old(self).task_list(), task, final(self).task_list()),
            final(self).queued() == old(self).queued(),
    {
        self.store(task);
    }

    /// Sets a task's status.
    pub fn set_status(&mut self, id: &str, status: TaskStatus) -> (r: Result<(), TaskQueueError>)
        ensures
            match r {
                Ok(()) => exists|i: int| first_task(old(self).task_list(), id@, i)
                    && final(self).task_list() == old(self).task_list().update(i, Task { status, ..old(self).task_list()[i] }),
                Err(e) => no_task(old(self).task_list(), id@) && final(self).task_list() == old(self).task_list()
                    && (e matches TaskQueueError::TaskNotFound(x) && x@ == id@),
            },
            final(self).queued() == old(self).queued(),
    {
        match TaskQueue::position(&self.tasks, id) {
            Some(i) => {
                let mut t = self.tasks.remove(i);
                t.status = status;
                self.tasks.insert(i, t);
                assert(self.tasks@ =~= old(self).tasks@.update(i as int, Task { status, ..old(self).tasks@[i as int] }));
                assert(first_task(old(self).task_list(), id@, i as int));
                assert(self.task_list() == old(self).task_list().update(i as int, Task { status, ..old(self).task_list()[i as int] }));
                Ok(())
            },
            None => Err(TaskQueueError::TaskNotFound(owned(id))),
        }
    }

    /// Drops an identifier from the queue.
    pub fn remove_from_queue(&mut self, id: &str)
        ensures
            final(self).queued() == without_id(old(self).queued(), id@),
            final(self).task_list() == old(self).task_list(),
    {
        let ghost q = self.queue@;
        let mut out: Vec<String> = Vec::new();
        let mut i: usize = 0;
        while i < self.queue.len()
            invariant
                i <= self.queue.len(),
                self.queue@ == q,
                out@ == without_id(q.take(i as int), id@),
            decreases self.queue.len() - i,
        {
            let keep = !str_eq(self.queue[i].as_str(), id);
            if keep {
                out.push(self.queue[i].clone());
            }
            proof {
                assert(q.take(i + 1).drop_last() =~= q.take(i as int));
                assert(out@ == without_id(q.take(i + 1), id@)) by {
                    reveal(Seq::filter);
                }
            }
            i = i + 1;
        }
        assert(q.take(q.len() as int) =~= q);
        self.queue = out;
    }

    /// Sets a task's status, dropping it from the queue when the status is final.
    pub fn update_status(&mut self, id: &str, status: TaskStatus) -> (r: Result<(), TaskQueueError>)
        ensures
            match r {
                Ok(()) => exists|i: int| first_task(old(self).task_list(), id@, i)
                    && final(self).task_list() == old(self).task_list().update(i, Task { status, ..old(self).task_list()[i] }),
                Err(e) => no_task(old(self).task_list(), id@) && final(self).task_list() == old(self).task_list()
                    && (e matches TaskQueueError::TaskNotFound(x) && x@ == id@),
            },
            r is Ok && is_terminal_status(status) ==> final(self).queued() == without_id(old(self).queued(), id@),
            !(r is Ok && is_terminal_status(status)) ==> final(self).queued() == old(self).queued(),
    {
        let r = self.set_status(id, status);
        if r.is_ok() && (status == TaskStatus::Completed || status == TaskStatus::Failed || status == TaskStatus::Cancelled) {
            self.remove_from_queue(id);
        }
        r
    }

    /// Records a user's answer for a task awaiting input, which then executes again.
    pub fn provide_input(&mut self, id: &str, key: String, value: String) -> (r: Result<(), TaskQueueError>)
        ensures
            final(self).queued() == old(self).queued(),
            match task_named(old(self).task_list(), id@) {
                None => r matches Err(TaskQueueError::TaskNotFound(x)) && x@ == id@ && final(self).task_list() == old(self).task_list(),
                Some(t) => if t.status != TaskStatus::AwaitingInput {
                    r matches Err(TaskQueueError::InvalidState(m))
                        && m@ == "Task is not awaiting input (status: "@ + task_status_name(t.status) + ")"@
                        && final(self).task_list() == old(self).task_list()
                } else {
                    &&& r is Ok
                    &&& exists|i: int| first_task(old(self).task_list(), id@, i) && {
                        let u = final(self).task_list()[i];
                        &&& final(self).task_list().len() == old(self).task_list().len()
                        &&& u.status == TaskStatus::Executing
                        &&& u.context.user_inputs@ == with_pair(t.context.user_inputs@, key, value)
                        &&& u.id == t.id
                        &&& forall|j: int| 0 <= j < old(self).task_list().len() && j != i ==>
                            #[trigger] final(self).task_list()[j] == old(self).task_list()[j]
                    }
                },
            },
    {
        match TaskQueue::position(&self.tasks, id) {
            Some(i) => {
                proof {
                    lemma_first_task_unique(self.tasks@, id@, i as int);
                }
                if self.tasks[i].status != TaskStatus::AwaitingInput {
                    let msg = owned("Task is not awaiting input (status: ").concat(self.tasks[i].status.as_str()).concat(")");
                    return Err(TaskQueueError::InvalidState(msg));
                }
                let mut t = self.tasks.remove(i);
                set_pair(&mut t.context.user_inputs, key, value);
                t.status = TaskStatus::Executing;
                self.tasks.insert(i, t);
                Ok(())
            },
            None => Err(TaskQueueError::TaskNotFound(owned(id))),
        }
    }

    /// Marks a task cancelled (finished tasks cannot be) and drops it from the queue.
    pub fn cancel(&mut self, id: &str) -> (r: Result<(), TaskQueueError>)
        ensures
            match task_named(old(self).task_list(), id@) {
                None => r matches Err(TaskQueueError::TaskNotFound(x)) && x@ == id@
                    && final(self).task_list() == old(self).task_list() && final(self).queued() == old(self).queued(),
                Some(t) => if is_terminal_status(t.status) {
                    r matches Err(TaskQueueError::InvalidState(m)) && m@ == "Cannot cancel a completed/failed task"@
                        && final(self).task_list() == old(self).task_list() && final(self).queued() == old(self).queued()
                } else {
                    &&& r is Ok
                    &&& exists|i: int| first_task(old(self).task_list(), id@, i)
                        && final(self).task_list() == old(self).task_list().update(i, Task { status: TaskStatus::Cancelled, ..t })
                    &&& final(self).queued() == without_id(old(self).queued(), id@)
                },
            },
    {
        match TaskQueue::position(&self.tasks, id) {
            Some(i) => {
                proof {
                    lemma_first_task_unique(self.tasks@, id@, i as int);
                }
                if self.tasks[i].is_terminal() {
                    return Err(TaskQueueError::InvalidState(owned("Cannot cancel a completed/failed task")));
                }
                let mut t = self.tasks.remove(i);
                t.status = TaskStatus::Cancelled;
                self.tasks.insert(i, t);
                assert(self.tasks@ =~= old(self).tasks@.update(i as int, Task { status: TaskStatus::Cancelled, ..old(self).tasks@[i as int] }));
                self.remove_from_queue(id);
                Ok(())
            },
            None => Err(TaskQueueError::TaskNotFound(owned(id))),
        }
    }

    /// Every task, in the order they were stored.
    pub fn all(&self) -> (r: &Vec<Task>)
        ensures
            r@ == self.task_list(),
    {
        &self.tasks
    }

    /// The tasks, all or those with the given status, in table order.
    pub fn list(&self, status_filter: Option<TaskStatus>) -> (r: Vec<&Task>)
        ensures
            r@ == self.task_list().filter(|t: Task| match status_filter { Some(s) => t.status == s, None => true })
                .map_values(|t: Task| &t),
    {
        let ghost pred = |t: Task| match status_filter { Some(s) => t.status == s, None => true };
        let mut out: Vec<&Task> = Vec::new();
        let mut i: usize = 0;
        while i < self.tasks.len()
            invariant
                i <= self.tasks.len(),
                pred == (|t: Task| match status_filter { Some(s) => t.status == s, None => true }),
                out@ == self.tasks@.take(i as int).filter(pred).map_values(|t: Task| &t),
            decreases self.tasks.len() - i,
        {
            let t = &self.tasks[i];
            let keep = match status_filter {
                Some(s) => t.status == s,
                None => true,
            };
            let ghost before = out@;
            if keep {
                out.push(t);
            }
            proof {
                let q = self.tasks@;
                assert(q.take(i + 1).drop_last() =~= q.take(i as int));
                assert(q.take(i + 1).filter(pred) == if pred(q[i as int]) { q.take(i as int).filter(pred).push(q[i as int]) } else { q.take(i as int).filter(pred) }) by {
                    reveal(Seq::filter);
                }
                assert(out@ =~= q.take(i + 1).filter(pred).map_values(|t: Task| &t));
            }
            i = i + 1;
        }
        assert(self.tasks@.take(self.tasks@.len() as int) =~= self.tasks@);
        out
    }

    /// The number of queued identifiers whose task waits to run.
    pub fn pending_count(&self) -> (r: usize)
        ensures
            r == self.queued().filter(|id: String| is_waiting(self.task_list(), id@)).len(),
    {
        let ghost pred = |id: String| is_waiting(self.tasks@, id@);
        let mut n: usize = 0;
        let mut i: usize = 0;
        while i < self.queue.len()
            invariant
                i <= self.queue.len(),
                pred == (|id: String| is_waiting(self.tasks@, id@)),
                n == self.queue@.take(i as int).filter(pred).len(),
                n <= i,
            decreases self.queue.len() - i,
        {
            let waiting = match TaskQueue::position(&self.tasks, self.queue[i].as_str()) {
                Some(p) => {
                    proof {
                        lemma_first_task_unique(self.tasks@, self.queue@[i as int]@, p as int);
                    }
                    self.tasks[p].status == TaskStatus::Queued
                },
                None => false,
            };
            proof {
                let q = self.queue@;
                assert(q.take(i + 1).drop_last() =~= q.take(i as int));
                assert(q.take(i + 1).filter(pred).len() == q.take(i as int).filter(pred).len() + if pred(q[i as int]) { 1int } else { 0int }) by {
                    reveal(Seq::filter);
                }
            }
            if waiting {
                n = n + 1;
            }
            i = i + 1;
        }
        assert(self.queue@.take(self.queue@.len() as int) =~= self.queue@);
        n
    }
}

/// The first `4 - k` rank groups of the sorted queue, highest rank first.
pub open spec fn sorted_prefix(q: Seq<String>, tasks: Seq<Task>, k: int) -> Seq<String>
    decreases 4 - k,
{
    if k >= 4 {
        Seq::empty()
    } else {
        sorted_prefix(q, tasks, k + 1) + with_rank(q, tasks, k)
    }
}

// ---------------------------------------------------------------------------
// Laws
// ---------------------------------------------------------------------------

proof fn lemma_rank_of_sorted(q: Seq<String>, tasks: Seq<Task>, x: int)
    requires
        0 <= x < sorted_queue(q, tasks).len(),
    ensures
        ({
            let l3 = with_rank(q, tasks, 3).len() as int;
            let l2 = with_rank(q, tasks, 2).len() as int;
            let l1 = with_rank(q, tasks, 1).len() as int;
            let r = queue_rank(tasks, sorted_queue(q, tasks)[x]@);
            &&& x < l3 ==> r == 3
            &&& l3 <= x < l3 + l2 ==> r == 2
            &&& l3 + l2 <= x < l3 + l2 + l1 ==> r == 1
            &&& l3 + l2 + l1 <= x ==> r == 0
        }),
{
    let w3 = with_rank(q, tasks, 3);
    let w2 = with_rank(q, tasks, 2);
    let w1 = with_rank(q, tasks, 1);
    let w0 = with_rank(q, tasks, 0);
    let s = sorted_queue(q, tasks);
    assert(s == w3 + w2 + w1 + w0);
    let l3 = w3.len() as int;
    let l2 = w2.len() as int;
    let l1 = w1.len() as int;
    if x < l3 {
        q.lemma_filter_pred(|id: String| queue_rank(tasks, id@) == 3, x);
        assert(s[x] == w3[x]);
    } else if x < l3 + l2 {
        q.lemma_filter_pred(|id: String| queue_rank(tasks, id@) == 2, x - l3);
        assert(s[x] == w2[x - l3]);
    } else if x < l3 + l2 + l1 {
        q.lemma_filter_pred(|id: String| queue_rank(tasks, id@) == 1, x - l3 - l2);
        assert(s[x] == w1[x - l3 - l2]);
    } else {
        q.lemma_filter_pred(|id: String| queue_rank(tasks, id@) == 0, x - l3 - l2 - l1);
        assert(s[x] == w0[x - l3 - l2 - l1]);
    }
}

/// A sorted queue runs from the highest priority to the lowest.
pub proof fn law_sorted_queue_ordered(q: Seq<String>, tasks: Seq<Task>, i: int, j: int)
    requires
        0 <= i < j < sorted_queue(q, tasks).len(),
    ensures
        queue_rank(tasks, sorted_queue(q, tasks)[i]@) >= queue_rank(tasks, sorted_queue(q, tasks)[j]@),
{
    lemma_rank_of_sorted(q, tasks, i);
    lemma_rank_of_sorted(q, tasks, j);
}

/// Sorting keeps exactly the queued identifiers, each as often as before.
pub proof fn law_sorted_queue_permutes(q: Seq<String>, tasks: Seq<Task>)
    ensures
        sorted_queue(q, tasks).to_multiset() == q.to_multiset(),
    decreases q.len(),
{
    broadcast use vstd::seq_lib::group_to_multiset_ensures;
    broadcast use vstd::multiset::group_multiset_axioms;
    if q.len() == 0 {
        assert(with_rank(q, tasks, 3) =~= Seq::<String>::empty()) by { reveal(Seq::filter); }
        assert(with_rank(q, tasks, 2) =~= Seq::<String>::empty()) by { reveal(Seq::filter); }
        assert(with_rank(q, tasks, 1) =~= Seq::<String>::empty()) by { reveal(Seq::filter); }
        assert(with_rank(q, tasks, 0) =~= Seq::<String>::empty()) by { reveal(Seq::filter); }
        assert(sorted_queue(q, tasks) =~= Seq::<String>::empty());
    } else {
        let p = q.drop_last();
        let x = q.last();
        assert(q =~= p.push(x));
        law_sorted_queue_permutes(p, tasks);
        let r = queue_rank(tasks, x@);
        p.lemma_filter_push(x, |id: String| queue_rank(tasks, id@) == 3);
        p.lemma_filter_push(x, |id: String| queue_rank(tasks, id@) == 2);
        p.lemma_filter_push(x, |id: String| queue_rank(tasks, id@) == 1);
        p.lemma_filter_push(x, |id: String| queue_rank(tasks, id@) == 0);
        let a3 = with_rank(p, tasks, 3);
        let a2 = with_rank(p, tasks, 2);
        let a1 = with_rank(p, tasks, 1);
        let a0 = with_rank(p, tasks, 0);
        let b3 = with_rank(q, tasks, 3);
        let b2 = with_rank(q, tasks, 2);
        let b1 = with_rank(q, tasks, 1);
        let b0 = with_rank(q, tasks, 0);
        vstd::seq_lib::lemma_multiset_commutative(a3, a2);
        vstd::seq_lib::lemma_multiset_commutative(a3 + a2, a1);
        vstd::seq_lib::lemma_multiset_commutative(a3 + a2 + a1, a0);
        vstd::seq_lib::lemma_multiset_commutative(b3, b2);
        vstd::seq_lib::lemma_multiset_commutative(b3 + b2, b1);
        vstd::seq_lib::lemma_multiset_commutative(b3 + b2 + b1, b0);
        assert(0 <= r <= 3) by {
            match task_named(tasks, x@) {
                Some(t) => {},
                None => {},
            }
        }
        assert(sorted_queue(q, tasks).to_multiset() =~= q.to_multiset());
    }
}

/// A cancelled task's identifier is no longer queued.
pub proof fn law_cancelled_not_queued(q: Seq<String>, id: Seq<char>, i: int)
    requires
        0 <= i < without_id(q, id).len(),
    ensures
        without_id(q, id)[i]@ != id,
{
    q.lemma_filter_pred(other_than(id), i);
}


/// Whether priority `p` is more urgent than `q`: Critical above High, High above
/// Normal, Normal above Low.
pub open spec fn more_urgent(p: TaskPriority, q: TaskPriority) -> bool {
    match (p, q) {
        (TaskPriority::Critical, TaskPriority::High) | (TaskPriority::Critical, TaskPriority::Normal)
        | (TaskPriority::Critical, TaskPriority::Low) => true,
        (TaskPriority::High, TaskPriority::Normal) | (TaskPriority::High, TaskPriority::Low) => true,
        (TaskPriority::Normal, TaskPriority::Low) => true,
        _ => false,
    }
}

/// The rank a queue sorts by orders the priorities Critical > High > Normal > Low.
pub proof fn law_rank_orders_priorities(p: TaskPriority, q: TaskPriority)
    ensures
        more_urgent(p, q) <==> priority_rank(p) > priority_rank(q),
{
}

/// In a sorted queue no task waits behind a less urgent one: of two known tasks,
/// the one further back is never more urgent than the one ahead of it. So a
/// queued Critical task comes before every High, Normal or Low one.
pub proof fn law_sorted_queue_by_urgency(q: Seq<String>, tasks: Seq<Task>, i: int, j: int)
    requires
        0 <= i < j < sorted_queue(q, tasks).len(),
        task_named(tasks, sorted_queue(q, tasks)[i]@) is Some,
        task_named(tasks, sorted_queue(q, tasks)[j]@) is Some,
    ensures
        !more_urgent(
            task_named(tasks, sorted_queue(q, tasks)[j]@)->0.priority,
            task_named(tasks, sorted_queue(q, tasks)[i]@)->0.priority,
        ),
{
    law_sorted_queue_ordered(q, tasks, i, j);
    law_rank_orders_priorities(
        task_named(tasks, sorted_queue(q, tasks)[j]@)->0.priority,
        task_named(tasks, sorted_queue(q, tasks)[i]@)->0.priority,
    );
}

} // verus!
