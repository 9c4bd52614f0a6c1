//! Decision engine that matches anomalies to policies and creates actions.

use vstd::prelude::*;
use crate::clock::{format_stamp_digits, in_range, new_uuid, now_millis, stamp_digits};
use crate::reactive::policy::{blocked_by, rule_action_result, RemediationPolicy, RemediationRule};
use crate::reactive::types::{
    description_spec, event_type_spec, is_fresh_action, severity_rank, Action, ActionType, Anomaly,
    ControlLoopState, NotifyUrgency, Severity,
};
use crate::text::{owned, str_eq};

verus! {

/// Result of decision engine evaluation.
pub struct Decision {
    /// The anomaly that was evaluated.
    pub anomaly: Anomaly,
    /// Actions to take (may be empty if no policy matches).
    pub actions: Vec<Action>,
    /// Whether the anomaly was handled by a policy.
    pub handled: bool,
    /// Reason for the decision.
    pub reason: String,
}

/// The decision engine.
pub struct DecisionEngine {
    /// Remediation policy.
    policy: RemediationPolicy,
    /// Maximum concurrent actions.
    max_concurrent_actions: usize,
    /// Currently executing action count.
    executing_count: usize,
    /// Path of the running executable, used to back it up before a self-update.
    current_exe: Option<String>,
}

/// The notification urgency for an anomaly of the given severity.
pub open spec fn urgency_for(s: Severity) -> NotifyUrgency {
    match s {
        Severity::Emergency | Severity::Critical => NotifyUrgency::High,
        Severity::Warning => NotifyUrgency::Medium,
        Severity::Info => NotifyUrgency::Low,
    }
}

/// What a pre-action name turns into, given the executable's path and the time.
pub open spec fn pre_action_result(name: Seq<char>, exe: Option<Seq<char>>, now: int, r: Option<ActionType>) -> bool {
    if name == "backup_binary"@ {
        match exe {
            Some(p) => r matches Some(ActionType::RunCommand { command, args, timeout_secs })
                && command@ == "cp"@
                && args@.len() == 3
                && args@[0]@ == "-p"@
                && args@[1]@ == p
                && args@[2]@ == p + ".backup."@ + stamp_digits(now)
                && timeout_secs == 30,
            None => r is None,
        }
    } else if name == "rotate_logs"@ {
        r == Some(ActionType::RotateLogs)
    } else if name == "backup"@ {
        r == Some(ActionType::TriggerBackup)
    } else {
        r is None
    }
}

/// Whether a pre-action name yields an action.
pub open spec fn pre_action_yields(name: Seq<char>, exe: Option<Seq<char>>) -> bool {
    if name == "backup_binary"@ { exe is Some } else { name == "rotate_logs"@ || name == "backup"@ }
}

/// Whether a rule's action string yields no action for the event.
pub open spec fn rule_action_is_none(action: Seq<char>, event: crate::reactive::types::SystemEvent, blocked: bool) -> bool {
    if action == "restart_container"@ {
        !(event is ContainerCrashed || event is ServiceUnreachable)
    } else if action == "rotate_logs"@ || action == "trigger_backup"@ || action == "self_update"@
        || action == "notify_user"@ || action == "escalate"@ {
        false
    } else {
        blocked
    }
}

/// `a` is a new action for the anomaly, created at `now`, of whatever type it holds.
pub open spec fn new_action_for(a: Action, anomaly_id: Seq<char>, requires_approval: bool, now: int) -> bool {
    &&& is_fresh_action(a, anomaly_id, a.action_type, requires_approval)
    &&& a.created_at == now
    &&& a.id@.len() == 36
}

/// The notification sent when the hourly limit defers an anomaly.
pub open spec fn rate_limited_action(a: Action, anomaly: Anomaly, now: int) -> bool {
    &&& new_action_for(a, anomaly.id@, false, now)
    &&& a.action_type matches ActionType::NotifyUser { message, urgency }
    &&& message@ == "Rate limit reached: "@ + description_spec(anomaly.event) + " (deferred)"@
    &&& urgency == NotifyUrgency::Medium
}

/// The notification that handles an anomaly no rule acted on.
pub open spec fn default_notification(a: Action, anomaly: Anomaly, now: int) -> bool {
    &&& new_action_for(a, anomaly.id@, true, now)
    &&& a.action_type matches ActionType::NotifyUser { message, urgency }
    &&& message@ == description_spec(anomaly.event)
    &&& urgency == urgency_for(anomaly.severity)
}

impl DecisionEngine {
    /// The remediation policy.
    pub closed spec fn policy_of(self) -> RemediationPolicy {
        self.policy
    }

    /// The limit on concurrently executing actions.
    pub closed spec fn max_concurrent(self) -> usize {
        self.max_concurrent_actions
    }

    /// The number of actions currently executing.
    pub closed spec fn executing(self) -> usize {
        self.executing_count
    }

    /// The path of the running executable, if known.
    pub closed spec fn exe_path(self) -> Option<Seq<char>> {
        match self.current_exe {
            Some(p) => Some(p@),
            None => None,
        }
    }

    /// The settings `evaluate` leaves alone.
    pub open spec fn same_settings(self, other: DecisionEngine) -> bool {
        &&& other.max_concurrent() == self.max_concurrent()
        &&& other.executing() == self.executing()
        &&& other.exe_path() == self.exe_path()
    }

    /// The rule that fires first for the anomaly at `now`, when one does.
    pub open spec fn matched_rule(self, anomaly: Anomaly, now: int) -> Option<RemediationRule> {
        let et = event_type_spec(anomaly.event);
        if exists|i: int| self.policy_of().first_applicable(i, et, anomaly.severity, now) {
            let i = choose|i: int| self.policy_of().first_applicable(i, et, anomaly.severity, now);
            Some(self.policy_of().rule_list()[i])
        } else {
            None
        }
    }

    /// What evaluating `anomaly` at `now` decides, and what it does to the engine.
    pub open spec fn evaluation(
        self,
        after: DecisionEngine,
        anomaly: Anomaly,
        loop_state: ControlLoopState,
        max_per_hour: u32,
        now: int,
        d: Decision,
    ) -> bool {
        let quiet = self.policy_of().quiet_at(now);
        let blocked = |a: Seq<char>| blocked_by(self.policy_of().blocklist(), a);
        &&& self.same_settings(after)
        &&& d.anomaly == anomaly
        &&& if self.executing() >= self.max_concurrent() {
            &&& after.policy_of() == self.policy_of()
            &&& !d.handled
            &&& d.actions@.len() == 0
            &&& d.reason@ == "Max concurrent actions reached"@
        } else if loop_state.actions_this_hour >= max_per_hour {
            &&& after.policy_of() == self.policy_of()
            &&& d.handled
            &&& d.actions@.len() == 1
            &&& rate_limited_action(d.actions@[0], anomaly, now)
            &&& d.reason@ == "Hourly rate limit reached"@
        } else if quiet && severity_rank(anomaly.severity) < severity_rank(Severity::Critical) {
            &&& after.policy_of() == self.policy_of()
            &&& !d.handled
            &&& d.actions@.len() == 0
            &&& d.reason@ == "Quiet hours (non-critical)"@
        } else if self.matched_rule(anomaly, now) matches Some(rule)
            && !rule_action_is_none(rule.action@, anomaly.event, blocked(rule.action@)) {
            let rule = self.matched_rule(anomaly, now)->Some_0;
            let pre = rule.pre_action matches Some(p) && pre_action_yields(p@, self.exe_path());
            &&& self.policy_of().trigger_history().after_trigger(after.policy_of().trigger_history(), rule.name@, now)
            &&& after.policy_of().rule_list() == self.policy_of().rule_list()
            &&& after.policy_of().blocklist() == self.policy_of().blocklist()
            &&& after.policy_of().quiet_window() == self.policy_of().quiet_window()
            &&& d.handled
            &&& d.reason@ == "Matched rule: "@ + rule.name@
            &&& d.actions@.len() == if pre { 2int } else { 1int }
            &&& pre ==> new_action_for(d.actions@[0], anomaly.id@, false, now)
                && pre_action_result(rule.pre_action->Some_0@, self.exe_path(), now, Some(d.actions@[0].action_type))
            &&& new_action_for(d.actions@.last(), anomaly.id@, rule.requires_approval || quiet, now)
            &&& rule_action_result(rule.action@, anomaly.event, blocked(rule.action@), Some(d.actions@.last().action_type))
        } else {
            &&& after.policy_of() == self.policy_of()
            &&& d.handled
            &&& d.actions@.len() == 1
            &&& default_notification(d.actions@[0], anomaly, now)
            &&& d.reason@ == "Default action (no policy match)"@
        }
    }

    /// A decision engine with the given policy, at most three concurrent actions
    /// and none executing.
    pub fn new(policy: RemediationPolicy) -> (r: DecisionEngine)
        ensures
            r.policy_of() == policy,
            r.max_concurrent() == 3,
            r.executing() == 0,
            r.exe_path() is None,
    {
        DecisionEngine { policy, max_concurrent_actions: 3, executing_count: 0, current_exe: None }
    }

    /// Sets the limit on concurrent actions.
    pub fn set_max_concurrent_actions(&mut self, max: usize)
        ensures
            final(self).max_concurrent() == max,
            final(self).executing() == old(self).executing(),
            final(self).policy_of() == old(self).policy_of(),
            final(self).exe_path() == old(self).exe_path(),
    {
        self.max_concurrent_actions = max;
    }

    /// Sets the number of executing actions.
    pub fn set_executing_count(&mut self, count: usize)
        ensures
            final(self).executing() == count,
            final(self).max_concurrent() == old(self).max_concurrent(),
            final(self).policy_of() == old(self).policy_of(),
            final(self).exe_path() == old(self).exe_path(),
    {
        self.executing_count = count;
    }

    /// Sets the path of the running executable (what `std::env::current_exe` gives).
    pub fn set_current_exe(&mut self, path: Option<String>)
        ensures
            final(self).exe_path() == (match path {
                Some(p) => Some(p@),
                None => None::<Seq<char>>,
            }),
            final(self).max_concurrent() == old(self).max_concurrent(),
            final(self).executing() == old(self).executing(),
            final(self).policy_of() == old(self).policy_of(),
    {
        self.current_exe = path;
    }

    /// The action a pre-action name calls for.
    fn parse_pre_action(&self, name: &str, now: i64) -> (r: Option<ActionType>)
        requires
            in_range(now as int),
        ensures
            pre_action_result(name@, self.exe_path(), now as int, r),
            r is Some <==> pre_action_yields(name@, self.exe_path()),
    {
        if str_eq(name, "backup_binary") {
            match &self.current_exe {
                Some(exe) => {
                    let mut args: Vec<String> = Vec::new();
                    args.push(owned("-p"));
                    args.push(exe.clone());
                    let stamp = format_stamp_digits(now);
                    args.push(exe.clone().concat(".backup.").concat(stamp.as_str()));
                    Some(ActionType::RunCommand { command: owned("cp"), args, timeout_secs: 30 })
                },
                None => None,
            }
        } else if str_eq(name, "rotate_logs") {
            Some(ActionType::RotateLogs)
        } else if str_eq(name, "backup") {
            Some(ActionType::TriggerBackup)
        } else {
            None
        }
    }

    /// The notification for an anomaly no rule acted on.
    fn default_action_for_anomaly(&self, anomaly: &Anomaly) -> (r: Option<ActionType>)
        ensures
            r matches Some(ActionType::NotifyUser { message, urgency })
                && message@ == description_spec(anomaly.event) && urgency == urgency_for(anomaly.severity),
    {
        let urgency = match anomaly.severity {
            Severity::Emergency | Severity::Critical => NotifyUrgency::High,
            Severity::Warning => NotifyUrgency::Medium,
            Severity::Info => NotifyUrgency::Low,
        };
        Some(ActionType::NotifyUser { message: anomaly.event.description(), urgency })
    }

    /// A new action for the anomaly created at `now`.
    fn new_action(anomaly_id: &str, action_type: ActionType, requires_approval: bool, now: i64) -> (r: Action)
        ensures
            new_action_for(r, anomaly_id@, requires_approval, now as int),
            r.action_type == action_type,
    {
        Action::create(new_uuid(), anomaly_id, action_type, requires_approval, now)
    }

    /// Decides, at `now`, what to do about an anomaly: nothing while the
    /// concurrency limit is reached; a deferred notification once the hourly limit
    /// is reached; nothing for non-critical anomalies in quiet hours; the first
    /// matching rule's action (after its pre-action), recorded against the rule;
    /// otherwise a notification that awaits approval.
    pub fn evaluate_at(&mut self, anomaly: Anomaly, loop_state: &ControlLoopState, max_actions_per_hour: u32, now: i64) -> (d: Decision)
        requires
            in_range(now as int),
        ensures
            old(self).evaluation(*final(self), anomaly, *loop_state, max_actions_per_hour, now as int, d),
    {
        if self.executing_count >= self.max_concurrent_actions {
            return Decision {
                anomaly,
                actions: Vec::new(),
                handled: false,
                reason: owned("Max concurrent actions reached"),
            };
        }
        if !loop_state.can_execute_action(max_actions_per_hour) {
            let message = owned("Rate limit reached: ").concat(anomaly.event.description().as_str()).concat(" (deferred)");
            let action = DecisionEngine::new_action(
                anomaly.id.as_str(),
                ActionType::NotifyUser { message, urgency: NotifyUrgency::Medium },
                false,
                now,
            );
            let mut actions: Vec<Action> = Vec::new();
            actions.push(action);
            return Decision { anomaly, actions, handled: true, reason: owned("Hourly rate limit reached") };
        }
        let in_quiet_hours = self.policy.is_quiet_hours_at(now);
        if in_quiet_hours && anomaly.severity.is_below(&Severity::Critical) {
            return Decision {
                anomaly,
                actions: Vec::new(),
                handled: false,
                reason: owned("Quiet hours (non-critical)"),
            };
        }
        let ghost et = event_type_spec(anomaly.event);
        let matched = match self.policy.find_matching_rule_at(&anomaly.event, anomaly.severity, now) {
            Some(rule) => Some(rule.duplicate()),
            None => None,
        };
        proof {
            if matched is Some {
                let i = choose|i: int| self.policy.first_applicable(i, et, anomaly.severity, now as int)
                    && matched->Some_0 == self.policy.rule_list()[i];
                self.lemma_matched_rule(anomaly, now as int, i);
            }
        }
        if let Some(rule) = matched {
            let maybe_action = self.policy.action_from_rule(&rule, &anomaly.event);
            if let Some(action_type) = maybe_action {
                let mut actions: Vec<Action> = Vec::new();
                if let Some(pre_name) = &rule.pre_action {
                    if let Some(pre_type) = self.parse_pre_action(pre_name.as_str(), now) {
                        actions.push(DecisionEngine::new_action(anomaly.id.as_str(), pre_type, false, now));
                    }
                }
                let requires_approval = rule.requires_approval || in_quiet_hours;
                actions.push(DecisionEngine::new_action(anomaly.id.as_str(), action_type, requires_approval, now));
                self.policy.record_trigger_at(rule.name.as_str(), now);
                return Decision {
                    anomaly,
                    actions,
                    handled: true,
                    reason: owned("Matched rule: ").concat(rule.name.as_str()),
                };
            }
        }
        let default_action = self.default_action_for_anomaly(&anomaly);
        match default_action {
            Some(action_type) => {
                let action = DecisionEngine::new_action(anomaly.id.as_str(), action_type, true, now);
                let mut actions: Vec<Action> = Vec::new();
                actions.push(action);
                Decision { anomaly, actions, handled: true, reason: owned("Default action (no policy match)") }
            },
            None => Decision { anomaly, actions: Vec::new(), handled: false, reason: owned("No matching policy") },
        }
    }

    /// Decides now what to do about an anomaly.
    pub fn evaluate(&mut self, anomaly: Anomaly, loop_state: &ControlLoopState, max_actions_per_hour: u32) -> (d: Decision)
        ensures
            exists|now: int| in_range(now)
                && #[trigger] old(self).evaluation(*final(self), anomaly, *loop_state, max_actions_per_hour, now, d),
    {
        let now = now_millis();
        self.evaluate_at(anomaly, loop_state, max_actions_per_hour, now)
    }

    /// The policy.
    pub fn policy(&self) -> (r: &RemediationPolicy)
        ensures
            *r == self.policy_of(),
    {
        &self.policy
    }

    /// The policy, for changes.
    pub fn policy_mut(&mut self) -> (r: &mut RemediationPolicy)
        ensures
            *r == old(self).policy_of(),
            final(self).policy_of() == *final(r),
            final(self).max_concurrent() == old(self).max_concurrent(),
            final(self).executing() == old(self).executing(),
            final(self).exe_path() == old(self).exe_path(),
    {
        &mut self.policy
    }
}

impl DecisionEngine {
    /// The matched rule is the first rule that fires.
    proof fn lemma_matched_rule(self, anomaly: Anomaly, now: int, i: int)
        requires
            self.policy_of().first_applicable(i, event_type_spec(anomaly.event), anomaly.severity, now),
        ensures
            self.matched_rule(anomaly, now) == Some(self.policy_of().rule_list()[i]),
    {
        let et = event_type_spec(anomaly.event);
        let k = choose|i: int| self.policy_of().first_applicable(i, et, anomaly.severity, now);
        lemma_first_unique(self.policy_of(), i, k, et, anomaly.severity, now);
    }
}

/// At most one rule is the first that fires.
pub proof fn lemma_first_unique(p: RemediationPolicy, i: int, k: int, et: Seq<char>, severity: Severity, now: int)
    requires
        p.first_applicable(i, et, severity, now),
        p.first_applicable(k, et, severity, now),
    ensures
        i == k,
{
    if i < k {
        assert(!p.rule_applies(p.rule_list()[i], et, severity, now));
    } else if k < i {
        assert(!p.rule_applies(p.rule_list()[k], et, severity, now));
    }
}


/// When no rule acts, the default notification's urgency follows the anomaly's
/// severity: Critical and Emergency are sent with High urgency, Warning with
/// Medium, Info with Low; so a more severe anomaly is never sent with less urgency.
pub proof fn law_default_notification_urgency(a: Action, anomaly: Anomaly, now: int)
    requires
        default_notification(a, anomaly, now),
    ensures
        a.action_type is NotifyUser,
        anomaly.severity == Severity::Critical ==> a.action_type->urgency == NotifyUrgency::High,
        anomaly.severity == Severity::Emergency ==> a.action_type->urgency == NotifyUrgency::High,
        anomaly.severity == Severity::Warning ==> a.action_type->urgency == NotifyUrgency::Medium,
        anomaly.severity == Severity::Info ==> a.action_type->urgency == NotifyUrgency::Low,
{
}

} // verus!
