//! The reactive engine's state and decisions: configuration, the control loop's
//! counters, the anomaly and action tables, and what each cycle step and each
//! command does to them.
//!
//! The loop that drives it (the timer, the command channel, running actions)
//! belongs to the caller, which feeds it observations and execution results.

use vstd::prelude::*;
use crate::clock::{in_range, now_millis};
use crate::float32::Float32;
use crate::reactive::action::{ActionExecutor, ExecutionResult, ExecutorError};
use crate::reactive::decision::{Decision, DecisionEngine};
use crate::reactive::observer::{AnomalyObserver, ObserverThresholds};
use crate::reactive::policy::{duplicate_rules, is_default_rule_set, RemediationPolicy, RemediationRule};
use crate::reactive::types::{can_retry_spec, Action, ActionStatus, Anomaly, ControlLoopState};
use crate::text::{owned, str_eq};

verus! {

/// Errors of the reactive engine.
#[derive(Debug)]
pub enum ReactiveError {
    /// The engine has not been started.
    NotStarted,
    /// The engine is already running.
    AlreadyRunning,
    /// No action has this identifier.
    ActionNotFound(String),
    /// No anomaly has this identifier.
    AnomalyNotFound(String),
    /// The state store failed (its message).
    State(String),
    /// An action failed to execute.
    Execution(ExecutorError),
}

impl ReactiveError {
    /// The error's message.
    pub fn message(&self) -> (r: String)
        ensures
            match self {
                ReactiveError::NotStarted => r@ == "engine not started"@,
                ReactiveError::AlreadyRunning => r@ == "engine already running"@,
                ReactiveError::ActionNotFound(id) => r@ == "action not found: "@ + id@,
                ReactiveError::AnomalyNotFound(id) => r@ == "anomaly not found: "@ + id@,
                ReactiveError::State(m) => r@ == "state error: "@ + m@,
                ReactiveError::Execution(e) => r@ == "execution error: "@ + crate::reactive::action::executor_error_text(*e),
            },
    {
        match self {
            ReactiveError::NotStarted => owned("engine not started"),
            ReactiveError::AlreadyRunning => owned("engine already running"),
            ReactiveError::ActionNotFound(id) => owned("action not found: ").concat(id.as_str()),
            ReactiveError::AnomalyNotFound(id) => owned("anomaly not found: ").concat(id.as_str()),
            ReactiveError::State(m) => owned("state error: ").concat(m.as_str()),
            ReactiveError::Execution(e) => {
                let m = e.message();
                owned("execution error: ").concat(m.as_str())
            },
        }
    }
}

/// Observer thresholds as configured.
#[derive(Clone, Copy, Debug)]
pub struct ThresholdsConfig {
    pub disk_warning_percent: Float32,
    pub disk_critical_percent: Float32,
    pub memory_warning_percent: Float32,
    pub memory_critical_percent: Float32,
    pub cpu_warning_percent: Float32,
    pub cpu_alert_duration_secs: u64,
}

impl Default for ThresholdsConfig {
    /// Disk 80% / 95%, memory 85% / 95%, CPU 90% for five minutes.
    fn default() -> (r: ThresholdsConfig)
        ensures
            r.disk_warning_percent.bits == 0x42A0_0000,
            r.disk_critical_percent.bits == 0x42BE_0000,
            r.memory_warning_percent.bits == 0x42AA_0000,
            r.memory_critical_percent.bits == 0x42BE_0000,
            r.cpu_warning_percent.bits == 0x42B4_0000,
            r.cpu_alert_duration_secs == 300,
    {
        ThresholdsConfig {
            disk_warning_percent: Float32::from_bits(0x42A0_0000),
            disk_critical_percent: Float32::from_bits(0x42BE_0000),
            memory_warning_percent: Float32::from_bits(0x42AA_0000),
            memory_critical_percent: Float32::from_bits(0x42BE_0000),
            cpu_warning_percent: Float32::from_bits(0x42B4_0000),
            cpu_alert_duration_secs: 300,
        }
    }
}

/// Notification preferences.
#[derive(Debug)]
pub struct NotificationsConfig {
    /// Verbosity level: all, milestones, critical.
    pub verbosity: String,
    /// Include routine fixes in notifications.
    pub include_routine_fixes: bool,
    /// Batch interval for notifications (0 = immediate).
    pub batch_interval_secs: u64,
}

impl Default for NotificationsConfig {
    fn default() -> (r: NotificationsConfig)
        ensures
            r.verbosity@ == "all"@,
            r.include_routine_fixes,
            r.batch_interval_secs == 0,
    {
        NotificationsConfig { verbosity: owned("all"), include_routine_fixes: true, batch_interval_secs: 0 }
    }
}

/// Configuration for the reactive engine.
#[derive(Debug)]
pub struct ReactiveConfig {
    /// Whether the reactive engine is enabled.
    pub enabled: bool,
    /// Check interval in seconds.
    pub check_interval_secs: u64,
    /// Maximum actions per hour.
    pub max_actions_per_hour: u32,
    /// Maximum concurrent actions.
    pub max_concurrent_actions: usize,
    /// Observer thresholds.
    pub thresholds: ThresholdsConfig,
    /// Remediation rules.
    pub rules: Vec<RemediationRule>,
    /// Notification configuration.
    pub notifications: NotificationsConfig,
    /// Quiet hours (start, end) in 24h format.
    pub quiet_hours: Option<(u8, u8)>,
}

impl Default for ReactiveConfig {
    fn default() -> (r: ReactiveConfig)
        ensures
            r.enabled,
            r.check_interval_secs == 10,
            r.max_actions_per_hour == 20,
            r.max_concurrent_actions == 3,
            r.thresholds.cpu_alert_duration_secs == 300,
            is_default_rule_set(r.rules@),
            r.notifications.verbosity@ == "all"@,
            r.quiet_hours == Some((2u8, 6u8)),
    {
        ReactiveConfig {
            enabled: true,
            check_interval_secs: 10,
            max_actions_per_hour: 20,
            max_concurrent_actions: 3,
            thresholds: ThresholdsConfig::default(),
            rules: RemediationPolicy::default_rules(),
            notifications: NotificationsConfig::default(),
            quiet_hours: Some((2, 6)),
        }
    }
}

/// Status of the reactive engine.
#[derive(Debug)]
pub struct ReactiveStatus {
    pub running: bool,
    pub paused: bool,
    pub started_at: Option<i64>,
    pub total_checks: u64,
    pub anomalies_detected: u64,
    pub actions_executed: u64,
    pub actions_this_hour: u32,
    pub active_anomalies: usize,
    pub pending_approvals: usize,
    pub last_check: Option<i64>,
    pub in_quiet_hours: bool,
}

/// Commands that can be sent to the reactive engine.
#[derive(Debug)]
pub enum ReactiveCommand {
    /// Pause the control loop.
    Pause,
    /// Resume the control loop.
    Resume,
    /// Shutdown the engine.
    Shutdown,
    /// Approve a pending action.
    ApproveAction { action_id: String, approved_by: String },
    /// Cancel an action.
    CancelAction { action_id: String },
    /// Inject a custom anomaly.
    InjectAnomaly(Anomaly),
}

// ---------------------------------------------------------------------------
// Tables keyed by identifier
// ---------------------------------------------------------------------------

/// Whether `i` is the first anomaly with identifier `id`.
pub open spec fn first_anomaly(s: Seq<Anomaly>, id: Seq<char>, i: int) -> bool {
    0 <= i < s.len() && s[i].id@ == id && forall|j: int| 0 <= j < i ==> (#[trigger] s[j]).id@ != id
}

/// Whether `i` is the first action with identifier `id`.
pub open spec fn first_action(s: Seq<Action>, id: Seq<char>, i: int) -> bool {
    0 <= i < s.len() && s[i].id@ == id && forall|j: int| 0 <= j < i ==> (#[trigger] s[j]).id@ != id
}

/// The table after storing `a`: it replaces the first entry with its identifier,
/// or is appended.
pub open spec fn stored_anomaly(s: Seq<Anomaly>, a: Anomaly, t: Seq<Anomaly>) -> bool {
    (exists|i: int| first_anomaly(s, a.id@, i) && t == s.update(i, a))
        || ((forall|j: int| 0 <= j < s.len() ==> (#[trigger] s[j]).id@ != a.id@) && t == s.push(a))
}

/// The table after storing `a`: it replaces the first entry with its identifier,
/// or is appended.
pub open spec fn stored_action(s: Seq<Action>, a: Action, t: Seq<Action>) -> bool {
    (exists|i: int| first_action(s, a.id@, i) && t == s.update(i, a))
        || ((forall|j: int| 0 <= j < s.len() ==> (#[trigger] s[j]).id@ != a.id@) && t == s.push(a))
}

/// The anomaly table after storing `a` (as `stored_anomaly` describes).
pub open spec fn with_anomaly(s: Seq<Anomaly>, a: Anomaly) -> Seq<Anomaly> {
    if exists|i: int| first_anomaly(s, a.id@, i) {
        s.update(choose|i: int| first_anomaly(s, a.id@, i), a)
    } else {
        s.push(a)
    }
}

/// The action table after storing `a` (as `stored_action` describes).
pub open spec fn with_action(s: Seq<Action>, a: Action) -> Seq<Action> {
    if exists|i: int| first_action(s, a.id@, i) {
        s.update(choose|i: int| first_action(s, a.id@, i), a)
    } else {
        s.push(a)
    }
}

/// The action table after storing each of `acts` in order.
pub open spec fn with_actions(s: Seq<Action>, acts: Seq<Action>) -> Seq<Action>
    decreases acts.len(),
{
    if acts.len() == 0 {
        s
    } else {
        with_action(with_actions(s, acts.drop_last()), acts.last())
    }
}

/// The anomaly table after storing the anomalies of the first `k` decisions.
pub open spec fn anomalies_after(s: Seq<Anomaly>, decs: Seq<Decision>, k: int) -> Seq<Anomaly>
    decreases k,
{
    if k <= 0 {
        s
    } else {
        with_anomaly(anomalies_after(s, decs, k - 1), decs[k - 1].anomaly)
    }
}

/// The action table after storing the actions of the first `k` decisions.
pub open spec fn actions_after(s: Seq<Action>, decs: Seq<Decision>, k: int) -> Seq<Action>
    decreases k,
{
    if k <= 0 {
        s
    } else {
        with_actions(actions_after(s, decs, k - 1), decs[k - 1].actions@)
    }
}

/// One decision of the loop: the engine `before`, given the number of executing
/// actions in `actions` and the concurrency limit, evaluates the anomaly against
/// the loop state into `d`, and becomes `after`.
pub open spec fn decided(
    before: DecisionEngine,
    after: DecisionEngine,
    actions: Seq<Action>,
    max_concurrent: usize,
    anomaly: Anomaly,
    loop_state: ControlLoopState,
    max_per_hour: u32,
    now: int,
    d: Decision,
) -> bool {
    exists|p: DecisionEngine| #![trigger p.evaluation(after, anomaly, loop_state, max_per_hour, now, d)]
        p.executing() == count_status(actions, ActionStatus::Executing)
        && p.max_concurrent() == max_concurrent
        && p.policy_of() == before.policy_of()
        && p.exe_path() == before.exe_path()
        && p.evaluation(after, anomaly, loop_state, max_per_hour, now, d)
}

/// No two anomalies share an identifier.
pub open spec fn anomaly_ids_unique(s: Seq<Anomaly>) -> bool {
    forall|i: int, j: int| 0 <= i < j < s.len() ==> (#[trigger] s[i]).id@ != (#[trigger] s[j]).id@
}

/// No two actions share an identifier.
pub open spec fn action_ids_unique(s: Seq<Action>) -> bool {
    forall|i: int, j: int| 0 <= i < j < s.len() ==> (#[trigger] s[i]).id@ != (#[trigger] s[j]).id@
}

/// Storing an anomaly keeps identifiers unique.
pub proof fn lemma_store_anomaly_unique(s: Seq<Anomaly>, a: Anomaly, t: Seq<Anomaly>)
    requires
        anomaly_ids_unique(s),
        stored_anomaly(s, a, t),
    ensures
        anomaly_ids_unique(t),
{
    if exists|i: int| first_anomaly(s, a.id@, i) && t == s.update(i, a) {
        let i = choose|i: int| first_anomaly(s, a.id@, i) && t == s.update(i, a);
        assert forall|x: int, y: int| 0 <= x < y < t.len() implies (#[trigger] t[x]).id@ != (#[trigger] t[y]).id@ by {
            if x == i { assert(s[y].id@ != s[i].id@); } else if y == i { assert(s[x].id@ != s[i].id@); } else { assert(s[x].id@ != s[y].id@); }
        }
    } else {
        assert forall|x: int, y: int| 0 <= x < y < t.len() implies (#[trigger] t[x]).id@ != (#[trigger] t[y]).id@ by {
            if y == s.len() { assert(s[x].id@ != a.id@); } else { assert(s[x].id@ != s[y].id@); }
        }
    }
}

/// Storing an action keeps identifiers unique.
pub proof fn lemma_store_action_unique(s: Seq<Action>, a: Action, t: Seq<Action>)
    requires
        action_ids_unique(s),
        stored_action(s, a, t),
    ensures
        action_ids_unique(t),
{
    if exists|i: int| first_action(s, a.id@, i) && t == s.update(i, a) {
        let i = choose|i: int| first_action(s, a.id@, i) && t == s.update(i, a);
        assert forall|x: int, y: int| 0 <= x < y < t.len() implies (#[trigger] t[x]).id@ != (#[trigger] t[y]).id@ by {
            if x == i { assert(s[y].id@ != s[i].id@); } else if y == i { assert(s[x].id@ != s[i].id@); } else { assert(s[x].id@ != s[y].id@); }
        }
    } else {
        assert forall|x: int, y: int| 0 <= x < y < t.len() implies (#[trigger] t[x]).id@ != (#[trigger] t[y]).id@ by {
            if y == s.len() { assert(s[x].id@ != a.id@); } else { assert(s[x].id@ != s[y].id@); }
        }
    }
}

/// Tables with the same identifiers at each position are alike in uniqueness.
proof fn lemma_same_action_ids(s: Seq<Action>, t: Seq<Action>)
    requires
        action_ids_unique(s),
        t.len() == s.len(),
        forall|k: int| 0 <= k < s.len() ==> (#[trigger] t[k]).id@ == s[k].id@,
    ensures
        action_ids_unique(t),
{
    assert forall|x: int, y: int| 0 <= x < y < t.len() implies (#[trigger] t[x]).id@ != (#[trigger] t[y]).id@ by {
        assert(s[x].id@ != s[y].id@);
    }
}

/// Tables with the same identifiers at each position are alike in uniqueness.
proof fn lemma_same_anomaly_ids(s: Seq<Anomaly>, t: Seq<Anomaly>)
    requires
        anomaly_ids_unique(s),
        t.len() == s.len(),
        forall|k: int| 0 <= k < s.len() ==> (#[trigger] t[k]).id@ == s[k].id@,
    ensures
        anomaly_ids_unique(t),
{
    assert forall|x: int, y: int| 0 <= x < y < t.len() implies (#[trigger] t[x]).id@ != (#[trigger] t[y]).id@ by {
        assert(s[x].id@ != s[y].id@);
    }
}

/// Removing an action keeps identifiers unique.
proof fn lemma_remove_action_unique(s: Seq<Action>, i: int)
    requires
        action_ids_unique(s),
        0 <= i < s.len(),
    ensures
        action_ids_unique(s.remove(i)),
{
    let t = s.remove(i);
    assert forall|x: int, y: int| 0 <= x < y < t.len() implies (#[trigger] t[x]).id@ != (#[trigger] t[y]).id@ by {
        let xs = if x < i { x } else { x + 1 };
        let ys = if y < i { y } else { y + 1 };
        assert(t[x] == s[xs]);
        assert(t[y] == s[ys]);
        assert(s[xs].id@ != s[ys].id@);
    }
}

/// Whether some pending action has the identifier.
pub open spec fn is_pending_id(t: Seq<Action>, id: Seq<char>) -> bool {
    exists|i: int| 0 <= i < t.len() && (#[trigger] t[i]).status == ActionStatus::Pending && t[i].id@ == id
}

/// The number of actions with the given status.
pub open spec fn count_status(s: Seq<Action>, st: ActionStatus) -> nat
    decreases s.len(),
{
    if s.len() == 0 {
        0
    } else {
        count_status(s.drop_last(), st) + if s.last().status == st { 1nat } else { 0nat }
    }
}

/// The number of unresolved anomalies.
pub open spec fn count_unresolved(s: Seq<Anomaly>) -> nat
    decreases s.len(),
{
    if s.len() == 0 {
        0
    } else {
        count_unresolved(s.drop_last()) + if s.last().resolved_at is None { 1nat } else { 0nat }
    }
}

fn anomaly_position(s: &Vec<Anomaly>, id: &str) -> (r: Option<usize>)
    ensures
        match r {
            Some(i) => first_anomaly(s@, id@, i as int),
            None => forall|j: int| 0 <= j < s@.len() ==> (#[trigger] s@[j]).id@ != id@,
        },
{
    let mut i: usize = 0;
    while i < s.len()
        invariant
            i <= s.len(),
            forall|j: int| 0 <= j < i ==> (#[trigger] s@[j]).id@ != id@,
        decreases s.len() - i,
    {
        if str_eq(s[i].id.as_str(), id) {
            return Some(i);
        }
        i = i + 1;
    }
    None
}

fn action_position(s: &Vec<Action>, id: &str) -> (r: Option<usize>)
    ensures
        match r {
            Some(i) => first_action(s@, id@, i as int),
            None => forall|j: int| 0 <= j < s@.len() ==> (#[trigger] s@[j]).id@ != id@,
        },
{
    let mut i: usize = 0;
    while i < s.len()
        invariant
            i <= s.len(),
            forall|j: int| 0 <= j < i ==> (#[trigger] s@[j]).id@ != id@,
        decreases s.len() - i,
    {
        if str_eq(s[i].id.as_str(), id) {
            return Some(i);
        }
        i = i + 1;
    }
    None
}

fn store_anomaly(s: &mut Vec<Anomaly>, a: Anomaly)
    ensures
        stored_anomaly(old(s)@, a, final(s)@),
{
    match anomaly_position(s, a.id.as_str()) {
        Some(i) => {
            s.set(i, a);
        },
        None => {
            s.push(a);
        },
    }
}

fn store_action(s: &mut Vec<Action>, a: Action)
    ensures
        stored_action(old(s)@, a, final(s)@),
{
    match action_position(s, a.id.as_str()) {
        Some(i) => {
            s.set(i, a);
        },
        None => {
            s.push(a);
        },
    }
}

proof fn lemma_stored_anomaly(s: Seq<Anomaly>, a: Anomaly, t: Seq<Anomaly>)
    requires
        stored_anomaly(s, a, t),
    ensures
        t == with_anomaly(s, a),
{
    if exists|i: int| first_anomaly(s, a.id@, i) {
        let c = choose|i: int| first_anomaly(s, a.id@, i);
        if exists|i: int| first_anomaly(s, a.id@, i) && t == s.update(i, a) {
            let i = choose|i: int| first_anomaly(s, a.id@, i) && t == s.update(i, a);
            if i < c { assert(s[i].id@ != a.id@); } else if c < i { assert(s[c].id@ != a.id@); }
        } else {
            assert(s[c].id@ == a.id@);
        }
    }
}

proof fn lemma_stored_action(s: Seq<Action>, a: Action, t: Seq<Action>)
    requires
        stored_action(s, a, t),
    ensures
        t == with_action(s, a),
{
    if exists|i: int| first_action(s, a.id@, i) {
        let c = choose|i: int| first_action(s, a.id@, i);
        if exists|i: int| first_action(s, a.id@, i) && t == s.update(i, a) {
            let i = choose|i: int| first_action(s, a.id@, i) && t == s.update(i, a);
            if i < c { assert(s[i].id@ != a.id@); } else if c < i { assert(s[c].id@ != a.id@); }
        } else {
            assert(s[c].id@ == a.id@);
        }
    }
}

/// Tables after the first `k` decisions depend only on those decisions.
proof fn lemma_after_prefix(sa: Seq<Anomaly>, sc: Seq<Action>, d1: Seq<Decision>, d2: Seq<Decision>, k: int)
    requires
        0 <= k <= d1.len(),
        k <= d2.len(),
        forall|i: int| 0 <= i < k ==> d1[i] == d2[i],
    ensures
        forall|j: int| 0 <= j <= k ==> #[trigger] anomalies_after(sa, d1, j) == anomalies_after(sa, d2, j),
        forall|j: int| 0 <= j <= k ==> #[trigger] actions_after(sc, d1, j) == actions_after(sc, d2, j),
    decreases k,
{
    if k > 0 {
        lemma_after_prefix(sa, sc, d1, d2, k - 1);
        assert(d1[k - 1] == d2[k - 1]);
        assert(anomalies_after(sa, d1, k - 1) == anomalies_after(sa, d2, k - 1));
        assert(actions_after(sc, d1, k - 1) == actions_after(sc, d2, k - 1));
        assert(anomalies_after(sa, d1, k) == anomalies_after(sa, d2, k));
        assert(actions_after(sc, d1, k) == actions_after(sc, d2, k));
    }
}

fn count_actions_with(s: &Vec<Action>, st: ActionStatus) -> (r: usize)
    ensures
        r == count_status(s@, st),
{
    let mut n: usize = 0;
    let mut i: usize = 0;
    while i < s.len()
        invariant
            i <= s.len(),
            n == count_status(s@.take(i as int), st),
            n <= i,
        decreases s.len() - i,
    {
        assert(s@.take(i + 1).drop_last() =~= s@.take(i as int));
        if s[i].status == st {
            n = n + 1;
        }
        i = i + 1;
    }
    assert(s@.take(s@.len() as int) =~= s@);
    n
}

fn count_unresolved_anomalies(s: &Vec<Anomaly>) -> (r: usize)
    ensures
        r == count_unresolved(s@),
{
    let mut n: usize = 0;
    let mut i: usize = 0;
    while i < s.len()
        invariant
            i <= s.len(),
            n == count_unresolved(s@.take(i as int)),
            n <= i,
        decreases s.len() - i,
    {
        assert(s@.take(i + 1).drop_last() =~= s@.take(i as int));
        if !s[i].is_resolved() {
            n = n + 1;
        }
        i = i + 1;
    }
    assert(s@.take(s@.len() as int) =~= s@);
    n
}

// ---------------------------------------------------------------------------
// The engine
// ---------------------------------------------------------------------------

/// The reactive engine.
pub struct ReactiveEngine {
    config: ReactiveConfig,
    state: ControlLoopState,
    observer: AnomalyObserver,
    decision: DecisionEngine,
    executor: ActionExecutor,
    anomalies: Vec<Anomaly>,
    actions: Vec<Action>,
    accepting_commands: bool,
}

impl ReactiveEngine {
    /// The control loop's counters.
    pub closed spec fn loop_state(self) -> ControlLoopState {
        self.state
    }

    /// The anomaly table.
    pub closed spec fn anomaly_table(self) -> Seq<Anomaly> {
        self.anomalies@
    }

    /// The action table.
    pub closed spec fn action_table(self) -> Seq<Action> {
        self.actions@
    }

    /// The anomaly observer.
    pub closed spec fn observer_of(self) -> AnomalyObserver {
        self.observer
    }

    /// The action executor's settings.
    pub closed spec fn executor_of(self) -> ActionExecutor {
        self.executor
    }

    /// Whether commands are taken (the engine was started).
    pub closed spec fn takes_commands(self) -> bool {
        self.accepting_commands
    }

    /// The decision engine.
    pub closed spec fn decider(self) -> DecisionEngine {
        self.decision
    }

    /// The hourly action limit.
    pub closed spec fn hourly_limit(self) -> u32 {
        self.config.max_actions_per_hour
    }

    /// The limit on concurrently executing actions.
    pub closed spec fn concurrency_limit(self) -> usize {
        self.config.max_concurrent_actions
    }

    /// Neither table holds two entries with one identifier.
    pub open spec fn ids_unique(self) -> bool {
        anomaly_ids_unique(self.anomaly_table()) && action_ids_unique(self.action_table())
    }

    /// How the engine `after` results from this one handling the anomalies
    /// `found` at `now`: the `k`-th anomaly is decided as `decs[k]` by the decision
    /// engine `engines[k]`, which becomes `engines[k + 1]`, against the loop state
    /// counting it and the action table as the earlier decisions left it; each
    /// decided anomaly is stored, then its actions in order.
    pub open spec fn handling(self, after: ReactiveEngine, found: Seq<Anomaly>, now: int, decs: Seq<Decision>, engines: Seq<DecisionEngine>) -> bool {
        let s0 = self.loop_state();
        &&& decs.len() == found.len()
        &&& engines.len() == found.len() + 1
        &&& engines[0] == self.decider()
        &&& forall|k: int| 0 <= k < found.len() ==> #[trigger] decided(
            engines[k], engines[k + 1], actions_after(self.action_table(), decs, k), self.concurrency_limit(),
            found[k], ControlLoopState { anomalies_detected: (s0.anomalies_detected + k + 1) as u64, ..s0 },
            self.hourly_limit(), now, decs[k])
        &&& after.decider() == engines[found.len() as int]
        &&& after.anomaly_table() == anomalies_after(self.anomaly_table(), decs, found.len() as int)
        &&& after.action_table() == actions_after(self.action_table(), decs, found.len() as int)
    }

    /// An engine for the configuration, its hourly window starting at `now`: the
    /// observer uses the configured thresholds, the policy the configured rules and
    /// quiet hours.
    pub fn new_at(config: ReactiveConfig, now: i64) -> (r: ReactiveEngine)
        ensures
            r.loop_state() == (ControlLoopState {
                running: false,
                paused: false,
                started_at: None,
                total_checks: 0,
                anomalies_detected: 0,
                actions_executed: 0,
                actions_this_hour: 0,
                hour_reset_at: now,
                active_anomalies: 0,
                pending_approvals: 0,
                last_check: None,
            }),
            r.anomaly_table().len() == 0,
            r.action_table().len() == 0,
            r.ids_unique(),
            !r.takes_commands(),
            r.hourly_limit() == config.max_actions_per_hour,
            r.concurrency_limit() == config.max_concurrent_actions,
            r.decider().policy_of().rule_list() == config.rules@,
            r.decider().policy_of().quiet_window() == match config.quiet_hours {
                Some((s, e)) => (if s < 23 { s } else { 23u8 }, if e < 23 { e } else { 23u8 }),
                None => (2u8, 6u8),
            },
            r.decider().exe_path() is None,
    {
        let t = config.thresholds;
        let thresholds = ObserverThresholds {
            disk_warning_percent: t.disk_warning_percent,
            disk_critical_percent: t.disk_critical_percent,
            memory_warning_percent: t.memory_warning_percent,
            memory_critical_percent: t.memory_critical_percent,
            cpu_warning_percent: t.cpu_warning_percent,
            cpu_alert_duration_secs: t.cpu_alert_duration_secs,
        };
        let mut policy = RemediationPolicy::new(duplicate_rules(&config.rules));
        match config.quiet_hours {
            Some((start, end)) => {
                policy.set_quiet_hours(start, end);
            },
            None => {},
        }
        ReactiveEngine {
            config,
            state: ControlLoopState::starting_at(now),
            observer: AnomalyObserver::new(thresholds),
            decision: DecisionEngine::new(policy),
            executor: ActionExecutor::new(),
            anomalies: Vec::new(),
            actions: Vec::new(),
            accepting_commands: false,
        }
    }

    /// An engine whose hourly window starts now.
    pub fn new(config: ReactiveConfig) -> (r: ReactiveEngine)
        ensures
            r.anomaly_table().len() == 0,
            r.action_table().len() == 0,
            r.ids_unique(),
            !r.takes_commands(),
            exists|now: i64| r.loop_state() == (ControlLoopState {
                running: false,
                paused: false,
                started_at: None,
                total_checks: 0,
                anomalies_detected: 0,
                actions_executed: 0,
                actions_this_hour: 0,
                hour_reset_at: now,
                active_anomalies: 0,
                pending_approvals: 0,
                last_check: None,
            }),
            r.hourly_limit() == config.max_actions_per_hour,
            r.concurrency_limit() == config.max_concurrent_actions,
            r.decider().policy_of().rule_list() == config.rules@,
            r.decider().policy_of().quiet_window() == match config.quiet_hours {
                Some((s, e)) => (if s < 23 { s } else { 23u8 }, if e < 23 { e } else { 23u8 }),
                None => (2u8, 6u8),
            },
    {
        let now = now_millis();
        ReactiveEngine::new_at(config, now)
    }

    /// Starts the engine at `now`; refused while it runs.
    pub fn start_at(&mut self, now: i64) -> (r: Result<(), ReactiveError>)
        ensures
            old(self).loop_state().running ==> (r matches Err(ReactiveError::AlreadyRunning) && *final(self) == *old(self)),
            !old(self).loop_state().running ==> {
                &&& r is Ok
                &&& final(self).loop_state() == (ControlLoopState { running: true, started_at: Some(now), ..old(self).loop_state() })
                &&& final(self).takes_commands()
                &&& final(self).anomaly_table() == old(self).anomaly_table()
                &&& final(self).action_table() == old(self).action_table()
            },
    {
        if self.state.running {
            return Err(ReactiveError::AlreadyRunning);
        }
        self.accepting_commands = true;
        self.state.running = true;
        self.state.started_at = Some(now);
        Ok(())
    }

    /// Sets the path of the running executable, which the `backup_binary`
    /// pre-action copies before an update.
    pub fn set_current_exe(&mut self, path: Option<String>)
        ensures
            final(self).decider().exe_path() == (match path {
                Some(p) => Some(p@),
                None => None::<Seq<char>>,
            }),
            final(self).decider().policy_of() == old(self).decider().policy_of(),
            final(self).loop_state() == old(self).loop_state(),
            final(self).anomaly_table() == old(self).anomaly_table(),
            final(self).action_table() == old(self).action_table(),
            final(self).observer_of() == old(self).observer_of(),
            final(self).executor_of() == old(self).executor_of(),
            final(self).takes_commands() == old(self).takes_commands(),
            final(self).hourly_limit() == old(self).hourly_limit(),
            final(self).concurrency_limit() == old(self).concurrency_limit(),
    {
        self.decision.set_current_exe(path);
    }

    /// Marks the loop as stopped.
    pub fn mark_stopped(&mut self)
        ensures
            final(self).loop_state() == (ControlLoopState { running: false, ..old(self).loop_state() }),
            final(self).anomaly_table() == old(self).anomaly_table(),
            final(self).action_table() == old(self).action_table(),
    {
        self.state.running = false;
    }

    /// Whether the loop is paused.
    pub fn is_paused(&self) -> (r: bool)
        ensures
            r == self.loop_state().paused,
    {
        self.state.paused
    }

    /// Counts a check at `now`.
    pub fn begin_cycle_at(&mut self, now: i64)
        requires
            old(self).loop_state().total_checks < u64::MAX,
        ensures
            final(self).loop_state() == (ControlLoopState {
                total_checks: (old(self).loop_state().total_checks + 1) as u64,
                last_check: Some(now),
                ..old(self).loop_state()
            }),
            final(self).anomaly_table() == old(self).anomaly_table(),
            final(self).action_table() == old(self).action_table(),
    {
        self.state.total_checks = self.state.total_checks + 1;
        self.state.last_check = Some(now);
    }

    /// The observer, for an observation cycle.
    pub fn observer_mut(&mut self) -> (r: &mut AnomalyObserver)
        ensures
            *r == old(self).observer_of(),
            final(self).observer_of() == *final(r),
            final(self).loop_state() == old(self).loop_state(),
            final(self).anomaly_table() == old(self).anomaly_table(),
            final(self).action_table() == old(self).action_table(),
    {
        &mut self.observer
    }

    /// The action executor's settings.
    pub fn executor(&self) -> (r: &ActionExecutor)
        ensures
            *r == self.executor_of(),
    {
        &self.executor
    }

    /// The decision engine.
    pub fn decision(&self) -> (r: &DecisionEngine)
        ensures
            *r == self.decider(),
    {
        &self.decision
    }

    /// Records newly detected anomalies at `now`, in order: each is counted, judged
    /// by the decision engine against the current counters (with the number of
    /// executing actions and the configured concurrency limit), and stored with the
    /// actions decided for it.
    pub fn handle_anomalies_at(&mut self, found: Vec<Anomaly>, now: i64)
        requires
            in_range(now as int),
            old(self).loop_state().anomalies_detected + found@.len() <= u64::MAX,
        ensures
            final(self).loop_state() == (ControlLoopState {
                anomalies_detected: (old(self).loop_state().anomalies_detected + found@.len()) as u64,
                ..old(self).loop_state()
            }),
            exists|decs: Seq<Decision>, engines: Seq<DecisionEngine>|
                #[trigger] old(self).handling(*final(self), found@, now as int, decs, engines),
            final(self).observer_of() == old(self).observer_of(),
            final(self).executor_of() == old(self).executor_of(),
            final(self).takes_commands() == old(self).takes_commands(),
            final(self).hourly_limit() == old(self).hourly_limit(),
            final(self).concurrency_limit() == old(self).concurrency_limit(),
            old(self).ids_unique() ==> final(self).ids_unique(),
    {
        let ghost s0 = self.state;
        let ghost e0 = *self;
        let ghost all = found@;
        let mut rest = found;
        let n = rest.len();
        let mut idx: usize = 0;
        let ghost mut decs: Seq<Decision> = Seq::empty();
        let ghost mut engines: Seq<DecisionEngine> = seq![self.decision];
        while idx < n
            invariant
                idx <= n,
                n == all.len(),
                rest@ == all.skip(idx as int),
                s0 == e0.state,
                s0.anomalies_detected + n <= u64::MAX,
                in_range(now as int),
                self.state == (ControlLoopState { anomalies_detected: (s0.anomalies_detected + idx) as u64, ..s0 }),
                self.config == e0.config,
                self.observer == e0.observer,
                self.executor == e0.executor,
                self.accepting_commands == e0.accepting_commands,
                decs.len() == idx,
                engines.len() == idx + 1,
                engines[0] == e0.decision,
                engines[idx as int] == self.decision,
                forall|k: int| 0 <= k < idx ==> #[trigger] decided(
                    engines[k], engines[k + 1], actions_after(e0.actions@, decs, k), e0.config.max_concurrent_actions,
                    all[k], ControlLoopState { anomalies_detected: (s0.anomalies_detected + k + 1) as u64, ..s0 },
                    e0.config.max_actions_per_hour, now as int, decs[k]),
                self.anomalies@ == anomalies_after(e0.anomalies@, decs, idx as int),
                self.actions@ == actions_after(e0.actions@, decs, idx as int),
                e0.ids_unique() ==> anomaly_ids_unique(self.anomalies@) && action_ids_unique(self.actions@),
            decreases n - idx,
        {
            self.state.anomalies_detected = self.state.anomalies_detected + 1;
            let executing = count_actions_with(&self.actions, ActionStatus::Executing);
            self.decision.set_executing_count(executing);
            self.decision.set_max_concurrent_actions(self.config.max_concurrent_actions);
            let ghost prepared = self.decision;
            let anomaly = rest.remove(0);
            assert(anomaly == all[idx as int]);
            assert(rest@ =~= all.skip(idx + 1));
            let max = self.config.max_actions_per_hour;
            let d = self.decision.evaluate_at(anomaly, &self.state, max, now);
            let ghost dd = d;
            let ghost st1 = self.state;
            let ghost acts_now = self.actions@;
            let ghost eng_after = self.decision;
            proof {
                assert(decided(engines[idx as int], eng_after, acts_now, e0.config.max_concurrent_actions,
                    all[idx as int], st1, max, now as int, dd));
            }
            let Decision { anomaly: decided_anomaly, actions: mut acts, .. } = d;
            let ghost an0 = self.anomalies@;
            store_anomaly(&mut self.anomalies, decided_anomaly);
            proof {
                lemma_stored_anomaly(anomalies_after(e0.anomalies@, decs, idx as int), dd.anomaly, self.anomalies@);
                if e0.ids_unique() {
                    lemma_store_anomaly_unique(an0, dd.anomaly, self.anomalies@);
                }
            }
            let ghost abefore = self.actions@;
            let ghost total = acts@;
            let mut a: usize = 0;
            let m = acts.len();
            while a < m
                invariant
                    a <= m,
                    m == total.len(),
                    acts@ == total.skip(a as int),
                    self.actions@ == with_actions(abefore, total.take(a as int)),
                    self.state == (ControlLoopState { anomalies_detected: (s0.anomalies_detected + idx + 1) as u64, ..s0 }),
                    self.config == e0.config,
                    self.observer == e0.observer,
                    self.executor == e0.executor,
                    self.accepting_commands == e0.accepting_commands,
                    self.anomalies@ == with_anomaly(anomalies_after(e0.anomalies@, decs, idx as int), dd.anomaly),
                    self.decision == eng_after,
                    e0.ids_unique() ==> anomaly_ids_unique(self.anomalies@) && action_ids_unique(self.actions@),
                decreases m - a,
            {
                let act = acts.remove(0);
                assert(act == total[a as int]);
                assert(acts@ =~= total.skip(a + 1));
                let ghost t0 = self.actions@;
                store_action(&mut self.actions, act);
                proof {
                    lemma_stored_action(t0, act, self.actions@);
                    if e0.ids_unique() {
                        lemma_store_action_unique(t0, act, self.actions@);
                    }
                    assert(total.take(a + 1).drop_last() =~= total.take(a as int));
                }
                a = a + 1;
            }
            proof {
                assert(total.take(m as int) =~= total);
                assert(dd.actions@ == total);
                let ghost old_decs = decs;
                let ghost old_engines = engines;
                decs = decs.push(dd);
                engines = engines.push(self.decision);
                assert(decs.take(idx as int) =~= old_decs);
                lemma_after_prefix(e0.anomalies@, e0.actions@, old_decs, decs, idx as int);
                assert forall|k: int| 0 <= k < idx + 1 implies #[trigger] decided(
                    engines[k], engines[k + 1], actions_after(e0.actions@, decs, k), e0.config.max_concurrent_actions,
                    all[k], ControlLoopState { anomalies_detected: (s0.anomalies_detected + k + 1) as u64, ..s0 },
                    e0.config.max_actions_per_hour, now as int, decs[k]) by {
                    assert(engines[k] == old_engines[k]);
                    if k < idx {
                        assert(engines[k + 1] == old_engines[k + 1]);
                        assert(decs[k] == old_decs[k]);
                        assert(actions_after(e0.actions@, decs, k) == actions_after(e0.actions@, old_decs, k));
                    } else {
                        assert(engines[k + 1] == eng_after);
                        assert(decs[k] == dd);
                        assert(actions_after(e0.actions@, decs, k) == acts_now);
                        assert(st1 == ControlLoopState { anomalies_detected: (s0.anomalies_detected + k + 1) as u64, ..s0 });
                    }
                }
            }
            idx = idx + 1;
        }
        proof {
            assert(e0.handling(*self, all, now as int, decs, engines));
        }
    }

    /// The identifiers of the actions ready to run, in table order.
    pub fn pending_action_ids(&self) -> (r: Vec<String>)
        ensures
            r@.len() == count_status(self.action_table(), ActionStatus::Pending),
            forall|k: int| 0 <= k < r@.len() ==> is_pending_id(self.action_table(), #[trigger] r@[k]@),
    {
        let mut out: Vec<String> = Vec::new();
        let mut i: usize = 0;
        while i < self.actions.len()
            invariant
                i <= self.actions.len(),
                out@.len() == count_status(self.actions@.take(i as int), ActionStatus::Pending),
                forall|k: int| #![trigger out@[k]] 0 <= k < out@.len() ==> exists|j: int|
                    0 <= j < self.actions@.len() && (#[trigger] self.actions@[j]).status == ActionStatus::Pending
                        && self.actions@[j].id@ == out@[k]@,
            decreases self.actions.len() - i,
        {
            assert(self.actions@.take(i + 1).drop_last() =~= self.actions@.take(i as int));
            let ghost prev = out@;
            if self.actions[i].status == ActionStatus::Pending {
                out.push(self.actions[i].id.clone());
                proof {
                    assert forall|k: int| #![trigger out@[k]] 0 <= k < out@.len() implies exists|j: int|
                        0 <= j < self.actions@.len() && (#[trigger] self.actions@[j]).status == ActionStatus::Pending
                            && self.actions@[j].id@ == out@[k]@ by {
                        if k < prev.len() {
                            assert(out@[k] == prev[k]);
                        } else {
                            assert(self.actions@[i as int].id@ == out@[k]@);
                        }
                    }
                }
            }
            i = i + 1;
        }
        assert(self.actions@.take(self.actions@.len() as int) =~= self.actions@);
        assert forall|k: int| 0 <= k < out@.len() implies is_pending_id(self.action_table(), #[trigger] out@[k]@) by {
            let j = choose|j: int| 0 <= j < self.actions@.len() && (#[trigger] self.actions@[j]).status == ActionStatus::Pending
                && self.actions@[j].id@ == out@[k]@;
            assert(self.action_table()[j] == self.actions@[j]);
        }
        out
    }

    /// The number of executing actions.
    pub fn executing_count(&self) -> (r: usize)
        ensures
            r == count_status(self.action_table(), ActionStatus::Executing),
    {
        count_actions_with(&self.actions, ActionStatus::Executing)
    }

    /// Whether another pending action may be dispatched this cycle: fewer actions
    /// are executing than the configured limit on concurrent actions.
    pub fn may_dispatch(&self) -> (r: bool)
        ensures
            r == (count_status(self.action_table(), ActionStatus::Executing) < self.concurrency_limit()),
    {
        let executing = count_actions_with(&self.actions, ActionStatus::Executing);
        executing < self.config.max_concurrent_actions
    }

    /// Takes the first action with the identifier out of the table.
    pub fn take_action(&mut self, id: &str) -> (r: Option<Action>)
        ensures
            match r {
                Some(a) => exists|i: int| first_action(old(self).action_table(), id@, i)
                    && a == old(self).action_table()[i]
                    && final(self).action_table() == old(self).action_table().remove(i),
                None => (forall|j: int| 0 <= j < old(self).action_table().len() ==> (#[trigger] old(self).action_table()[j]).id@ != id@)
                    && final(self).action_table() == old(self).action_table(),
            },
            final(self).anomaly_table() == old(self).anomaly_table(),
            final(self).loop_state() == old(self).loop_state(),
            old(self).ids_unique() ==> final(self).ids_unique(),
    {
        match action_position(&self.actions, id) {
            Some(i) => {
                proof {
                    if old(self).ids_unique() {
                        lemma_remove_action_unique(self.actions@, i as int);
                    }
                }
                Some(self.actions.remove(i))
            },
            None => None,
        }
    }

    /// Settles an executed action at `now` and puts it back: success resolves its
    /// anomaly (by the action's identifier) and counts it against the hourly limit;
    /// a retryable failure makes it pending again.
    pub fn settle_action_at(&mut self, action: Action, result: &Result<ExecutionResult, ExecutorError>, now: i64)
        requires
            old(self).loop_state().actions_executed < u64::MAX,
            old(self).loop_state().actions_this_hour < u32::MAX,
        ensures
            ({
                let success = result matches Ok(x) && x.success;
                let settled = if !success && can_retry_spec(action) {
                    Action { status: ActionStatus::Pending, executed_at: None, ..action }
                } else {
                    action
                };
                &&& stored_action(old(self).action_table(), settled, final(self).action_table())
                &&& success ==> final(self).loop_state() == crate::reactive::types::after_record_action(old(self).loop_state(), now as int)
                &&& !success ==> final(self).loop_state() == old(self).loop_state()
                &&& !success ==> final(self).anomaly_table() == old(self).anomaly_table()
                &&& success ==> (forall|j: int| 0 <= j < old(self).anomaly_table().len()
                    ==> (#[trigger] old(self).anomaly_table()[j]).id@ != action.anomaly_id@)
                    ==> final(self).anomaly_table() == old(self).anomaly_table()
                &&& success ==> forall|i: int| first_anomaly(old(self).anomaly_table(), action.anomaly_id@, i) ==> {
                    let a = final(self).anomaly_table()[i];
                    &&& final(self).anomaly_table().len() == old(self).anomaly_table().len()
                    &&& a.resolved_at == Some(now)
                    &&& a.resolved_by matches Some(b) && b@ == action.id@
                    &&& forall|j: int| 0 <= j < old(self).anomaly_table().len() && j != i ==>
                        #[trigger] final(self).anomaly_table()[j] == old(self).anomaly_table()[j]
                }
            }),
            old(self).ids_unique() ==> final(self).ids_unique(),
    {
        let mut action = action;
        let success = match result {
            Ok(x) => x.success,
            Err(_) => false,
        };
        if success {
            match anomaly_position(&self.anomalies, action.anomaly_id.as_str()) {
                Some(i) => {
                    let ghost t0 = self.anomalies@;
                    let mut a = self.anomalies.remove(i);
                    a.resolve_at(action.id.as_str(), now);
                    self.anomalies.insert(i, a);
                    proof {
                        assert forall|k: int| 0 <= k < t0.len() implies (#[trigger] self.anomalies@[k]).id@ == t0[k].id@ by {
                            if k != i { assert(self.anomalies@[k] == t0[k]); }
                        }
                        if anomaly_ids_unique(t0) {
                            lemma_same_anomaly_ids(t0, self.anomalies@);
                        }
                    }
                },
                None => {},
            }
            self.state.record_action_at(now);
        } else if action.can_retry() {
            action.retry();
        }
        let ghost t1 = self.actions@;
        let ghost settled = action;
        store_action(&mut self.actions, action);
        proof {
            if action_ids_unique(t1) {
                lemma_store_action_unique(t1, settled, self.actions@);
            }
        }
    }

    /// Recounts active anomalies and actions awaiting approval.
    pub fn refresh_counts(&mut self)
        ensures
            final(self).loop_state() == (ControlLoopState {
                active_anomalies: count_unresolved(old(self).anomaly_table()) as usize,
                pending_approvals: count_status(old(self).action_table(), ActionStatus::AwaitingApproval) as usize,
                ..old(self).loop_state()
            }),
            final(self).anomaly_table() == old(self).anomaly_table(),
            final(self).action_table() == old(self).action_table(),
    {
        self.state.active_anomalies = count_unresolved_anomalies(&self.anomalies);
        self.state.pending_approvals = count_actions_with(&self.actions, ActionStatus::AwaitingApproval);
    }

    /// Whether commands can be sent: refused before the engine starts.
    pub fn command_channel(&self) -> (r: Result<(), ReactiveError>)
        ensures
            self.takes_commands() ==> r is Ok,
            !self.takes_commands() ==> r matches Err(ReactiveError::NotStarted),
    {
        if self.accepting_commands { Ok(()) } else { Err(ReactiveError::NotStarted) }
    }

    /// Applies a command at `now`; returns whether the loop goes on (false after
    /// `Shutdown`).
    pub fn apply_command_at(&mut self, cmd: ReactiveCommand, now: i64) -> (r: bool)
        ensures
            r == !(cmd is Shutdown),
            cmd is Pause ==> final(self).loop_state() == (ControlLoopState { paused: true, ..old(self).loop_state() }),
            cmd is Resume ==> final(self).loop_state() == (ControlLoopState { paused: false, ..old(self).loop_state() }),
            !(cmd is Pause || cmd is Resume) ==> final(self).loop_state() == old(self).loop_state(),
            (cmd is Pause || cmd is Resume || cmd is Shutdown) ==> final(self).action_table() == old(self).action_table(),
            !(cmd is InjectAnomaly) ==> final(self).anomaly_table() == old(self).anomaly_table(),
            cmd matches ReactiveCommand::InjectAnomaly(a) ==> stored_anomaly(old(self).anomaly_table(), a, final(self).anomaly_table()),
            cmd matches ReactiveCommand::ApproveAction { action_id, approved_by } ==> ({
                let t = old(self).action_table();
                if exists|i: int| first_action(t, action_id@, i) {
                    let i = choose|i: int| first_action(t, action_id@, i);
                    &&& final(self).action_table().len() == t.len()
                    &&& final(self).action_table()[i].status == ActionStatus::Pending
                    &&& final(self).action_table()[i].approved_by matches Some(b) && b@ == approved_by@
                    &&& final(self).action_table()[i].approved_at == Some(now)
                    &&& final(self).action_table()[i].id == t[i].id
                    &&& forall|j: int| 0 <= j < t.len() && j != i ==> #[trigger] final(self).action_table()[j] == t[j]
                } else {
                    final(self).action_table() == t
                }
            }),
            cmd matches ReactiveCommand::CancelAction { action_id } ==> ({
                let t = old(self).action_table();
                if exists|i: int| first_action(t, action_id@, i) {
                    let i = choose|i: int| first_action(t, action_id@, i);
                    final(self).action_table() == t.update(i, Action { status: ActionStatus::Cancelled, ..t[i] })
                } else {
                    final(self).action_table() == t
                }
            }),
            old(self).ids_unique() ==> final(self).ids_unique(),
    {
        match cmd {
            ReactiveCommand::Pause => {
                self.state.paused = true;
                true
            },
            ReactiveCommand::Resume => {
                self.state.paused = false;
                true
            },
            ReactiveCommand::Shutdown => false,
            ReactiveCommand::ApproveAction { action_id, approved_by } => {
                match action_position(&self.actions, action_id.as_str()) {
                    Some(i) => {
                        let mut a = self.actions.remove(i);
                        a.approve_at(approved_by.as_str(), now);
                        self.actions.insert(i, a);
                        proof {
                            let t = old(self).actions@;
                            assert forall|k: int| 0 <= k < t.len() implies (#[trigger] self.actions@[k]).id@ == t[k].id@ by {
                                if k != i { assert(self.actions@[k] == t[k]); }
                            }
                            if action_ids_unique(t) {
                                lemma_same_action_ids(t, self.actions@);
                            }
                            let k = choose|k: int| first_action(t, action_id@, k);
                            if k < i {
                                assert(t[k].id@ != action_id@);
                            } else if k > i {
                                assert(t[i as int].id@ != action_id@);
                            }
                        }
                    },
                    None => {},
                }
                true
            },
            ReactiveCommand::CancelAction { action_id } => {
                match action_position(&self.actions, action_id.as_str()) {
                    Some(i) => {
                        let mut a = self.actions.remove(i);
                        a.status = ActionStatus::Cancelled;
                        self.actions.insert(i, a);
                        proof {
                            let t = old(self).actions@;
                            assert forall|k: int| 0 <= k < t.len() implies (#[trigger] self.actions@[k]).id@ == t[k].id@ by {
                                if k != i { assert(self.actions@[k] == t[k]); }
                            }
                            if action_ids_unique(t) {
                                lemma_same_action_ids(t, self.actions@);
                            }
                            let k = choose|k: int| first_action(t, action_id@, k);
                            if k < i {
                                assert(t[k].id@ != action_id@);
                            } else if k > i {
                                assert(t[i as int].id@ != action_id@);
                            }
                            assert(self.actions@ =~= t.update(i as int, Action { status: ActionStatus::Cancelled, ..t[i as int] }));
                        }
                    },
                    None => {},
                }
                true
            },
            ReactiveCommand::InjectAnomaly(a) => {
                let ghost t0 = self.anomalies@;
                let ghost aa = a;
                store_anomaly(&mut self.anomalies, a);
                proof {
                    if anomaly_ids_unique(t0) {
                        lemma_store_anomaly_unique(t0, aa, self.anomalies@);
                    }
                }
                true
            },
        }
    }

    /// The engine's status at `now`.
    pub fn status_at(&self, now: i64) -> (r: ReactiveStatus)
        ensures
            r.running == self.loop_state().running,
            r.paused == self.loop_state().paused,
            r.started_at == self.loop_state().started_at,
            r.total_checks == self.loop_state().total_checks,
            r.anomalies_detected == self.loop_state().anomalies_detected,
            r.actions_executed == self.loop_state().actions_executed,
            r.actions_this_hour == self.loop_state().actions_this_hour,
            r.active_anomalies == self.loop_state().active_anomalies,
            r.pending_approvals == self.loop_state().pending_approvals,
            r.last_check == self.loop_state().last_check,
            r.in_quiet_hours == self.decider().policy_of().quiet_at(now as int),
    {
        ReactiveStatus {
            running: self.state.running,
            paused: self.state.paused,
            started_at: self.state.started_at,
            total_checks: self.state.total_checks,
            anomalies_detected: self.state.anomalies_detected,
            actions_executed: self.state.actions_executed,
            actions_this_hour: self.state.actions_this_hour,
            active_anomalies: self.state.active_anomalies,
            pending_approvals: self.state.pending_approvals,
            last_check: self.state.last_check,
            in_quiet_hours: self.decision.policy().is_quiet_hours_at(now),
        }
    }

    /// The engine's status now.
    pub fn status(&self) -> (r: ReactiveStatus)
        ensures
            r.running == self.loop_state().running,
            r.paused == self.loop_state().paused,
            r.total_checks == self.loop_state().total_checks,
            exists|now: int| in_range(now) && r.in_quiet_hours == self.decider().policy_of().quiet_at(now),
    {
        let now = now_millis();
        self.status_at(now)
    }

    /// Copies of all anomalies.
    pub fn get_anomalies(&self) -> (r: Vec<Anomaly>)
        ensures
            r@.len() == self.anomaly_table().len(),
            forall|i: int| 0 <= i < r@.len() ==> (#[trigger] r@[i]).id == self.anomaly_table()[i].id
                && r@[i].resolved_at == self.anomaly_table()[i].resolved_at,
    {
        let mut out: Vec<Anomaly> = Vec::new();
        let mut i: usize = 0;
        while i < self.anomalies.len()
            invariant
                i <= self.anomalies.len(),
                out@.len() == i,
                forall|k: int| 0 <= k < i ==> (#[trigger] out@[k]).id == self.anomalies@[k].id
                    && out@[k].resolved_at == self.anomalies@[k].resolved_at,
            decreases self.anomalies.len() - i,
        {
            out.push(self.anomalies[i].duplicate());
            i = i + 1;
        }
        out
    }

    /// Copies of the unresolved anomalies, in table order.
    pub fn get_active_anomalies(&self) -> (r: Vec<Anomaly>)
        ensures
            r@.len() == count_unresolved(self.anomaly_table()),
            forall|i: int| 0 <= i < r@.len() ==> (#[trigger] r@[i]).resolved_at is None,
    {
        let mut out: Vec<Anomaly> = Vec::new();
        let mut i: usize = 0;
        while i < self.anomalies.len()
            invariant
                i <= self.anomalies.len(),
                out@.len() == count_unresolved(self.anomalies@.take(i as int)),
                forall|k: int| 0 <= k < out@.len() ==> (#[trigger] out@[k]).resolved_at is None,
            decreases self.anomalies.len() - i,
        {
            assert(self.anomalies@.take(i + 1).drop_last() =~= self.anomalies@.take(i as int));
            if !self.anomalies[i].is_resolved() {
                out.push(self.anomalies[i].duplicate());
            }
            i = i + 1;
        }
        assert(self.anomalies@.take(self.anomalies@.len() as int) =~= self.anomalies@);
        out
    }

    /// Copies of all actions.
    pub fn get_actions(&self) -> (r: Vec<Action>)
        ensures
            r@.len() == self.action_table().len(),
            forall|i: int| 0 <= i < r@.len() ==> (#[trigger] r@[i]).id == self.action_table()[i].id
                && r@[i].status == self.action_table()[i].status,
    {
        let mut out: Vec<Action> = Vec::new();
        let mut i: usize = 0;
        while i < self.actions.len()
            invariant
                i <= self.actions.len(),
                out@.len() == i,
                forall|k: int| 0 <= k < i ==> (#[trigger] out@[k]).id == self.actions@[k].id
                    && out@[k].status == self.actions@[k].status,
            decreases self.actions.len() - i,
        {
            out.push(self.actions[i].duplicate());
            i = i + 1;
        }
        out
    }

    /// Copies of the actions awaiting approval, in table order.
    pub fn get_pending_actions(&self) -> (r: Vec<Action>)
        ensures
            r@.len() == count_status(self.action_table(), ActionStatus::AwaitingApproval),
            forall|i: int| 0 <= i < r@.len() ==> (#[trigger] r@[i]).status == ActionStatus::AwaitingApproval,
    {
        let mut out: Vec<Action> = Vec::new();
        let mut i: usize = 0;
        while i < self.actions.len()
            invariant
                i <= self.actions.len(),
                out@.len() == count_status(self.actions@.take(i as int), ActionStatus::AwaitingApproval),
                forall|k: int| 0 <= k < out@.len() ==> (#[trigger] out@[k]).status == ActionStatus::AwaitingApproval,
            decreases self.actions.len() - i,
        {
            assert(self.actions@.take(i + 1).drop_last() =~= self.actions@.take(i as int));
            if self.actions[i].status == ActionStatus::AwaitingApproval {
                out.push(self.actions[i].duplicate());
            }
            i = i + 1;
        }
        assert(self.actions@.take(self.actions@.len() as int) =~= self.actions@);
        out
    }

    /// The most recently created actions, newest first, at most `limit` of them.
    pub fn get_action_history(&self, limit: usize) -> (r: Vec<Action>)
        ensures
            r@.len() == if self.action_table().len() < limit { self.action_table().len() } else { limit as nat },
            forall|i: int, j: int| 0 <= i < j < r@.len() ==> (#[trigger] r@[i]).created_at >= (#[trigger] r@[j]).created_at,
            forall|i: int| 0 <= i < r@.len() ==> exists|k: int|
                0 <= k < self.action_table().len() && (#[trigger] r@[i]).id == self.action_table()[k].id
                    && r@[i].created_at == self.action_table()[k].created_at,
    {
        // Insertion sort, newest first, stable for equal creation times.
        let mut sorted: Vec<Action> = Vec::new();
        let mut i: usize = 0;
        while i < self.actions.len()
            invariant
                i <= self.actions.len(),
                sorted@.len() == i,
                forall|a: int, b: int| 0 <= a < b < sorted@.len() ==> (#[trigger] sorted@[a]).created_at >= (#[trigger] sorted@[b]).created_at,
                forall|a: int| 0 <= a < sorted@.len() ==> exists|k: int|
                    0 <= k < self.actions@.len() && (#[trigger] sorted@[a]).id == self.actions@[k].id
                        && sorted@[a].created_at == self.actions@[k].created_at,
            decreases self.actions.len() - i,
        {
            let item = self.actions[i].duplicate();
            let t = item.created_at;
            let mut pos: usize = 0;
            while pos < sorted.len() && sorted[pos].created_at >= t
                invariant
                    pos <= sorted@.len(),
                    forall|a: int| 0 <= a < pos ==> (#[trigger] sorted@[a]).created_at >= t,
                decreases sorted@.len() - pos,
            {
                pos = pos + 1;
            }
            let ghost before = sorted@;
            sorted.insert(pos, item);
            proof {
                assert forall|a: int, b: int| 0 <= a < b < sorted@.len() implies
                    (#[trigger] sorted@[a]).created_at >= (#[trigger] sorted@[b]).created_at by {
                    if b < pos {
                        assert(sorted@[a] == before[a] && sorted@[b] == before[b]);
                    } else if b == pos {
                        assert(sorted@[a] == before[a]);
                    } else if a < pos {
                        assert(sorted@[a] == before[a] && sorted@[b] == before[b - 1]);
                        if (pos as int) < before.len() {
                            assert(before[pos as int].created_at < t);
                        }
                        assert(before[a].created_at >= before[b - 1].created_at || a == b - 1);
                    } else if a == pos {
                        assert(sorted@[b] == before[b - 1]);
                        assert(before[pos as int].created_at < t);
                        assert(before[pos as int].created_at >= before[b - 1].created_at || pos as int == b - 1);
                    } else {
                        assert(sorted@[a] == before[a - 1] && sorted@[b] == before[b - 1]);
                    }
                }
                assert forall|a: int| 0 <= a < sorted@.len() implies exists|k: int|
                    0 <= k < self.actions@.len() && (#[trigger] sorted@[a]).id == self.actions@[k].id
                        && sorted@[a].created_at == self.actions@[k].created_at by {
                    if a < pos {
                        assert(sorted@[a] == before[a]);
                    } else if a == pos {
                        assert(sorted@[a].id == self.actions@[i as int].id);
                    } else {
                        assert(sorted@[a] == before[a - 1]);
                    }
                }
            }
            i = i + 1;
        }
        let ghost full = sorted@;
        sorted.truncate(limit);
        assert forall|i: int| 0 <= i < sorted@.len() implies exists|k: int|
            0 <= k < self.actions@.len() && (#[trigger] sorted@[i]).id == self.actions@[k].id
                && sorted@[i].created_at == self.actions@[k].created_at by {
            assert(sorted@[i] == full[i]);
        }
        sorted
    }
}

} // verus!
