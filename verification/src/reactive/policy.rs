//! Remediation policies for the reactive control loop.
//!
//! Policies define what actions are auto-approved, their cooldowns, and rate limits.

use vstd::prelude::*;
use vstd::hash_map::StringHashMap;
use crate::clock::{day_number, day_of, hour_of, hour_of_day, in_range, now_millis, seconds_between, seconds_since};
use crate::reactive::types::{
    description_spec, event_type_spec, severity_rank, ActionType, NotifyUrgency, Severity, SystemEvent,
};
use crate::text::{contains, contains_seq, lowercase, owned, str_eq, to_lowercase, views};

verus! {

// ---------------------------------------------------------------------------
// Rules
// ---------------------------------------------------------------------------

/// A rule that defines how to respond to a specific event pattern.
#[derive(Debug)]
pub struct RemediationRule {
    /// Unique name for this rule.
    pub name: String,
    /// Event pattern to match (event type string, or `*` for any event).
    pub event_pattern: String,
    /// Action to take when the event matches.
    pub action: String,
    /// Minimum severity to trigger this rule.
    pub min_severity: Severity,
    /// Whether this action requires human approval.
    pub requires_approval: bool,
    /// Cooldown period after triggering (seconds).
    pub cooldown_secs: u64,
    /// Maximum times this rule can trigger per day.
    pub max_triggers_per_day: u32,
    /// Optional action to run before the main action.
    pub pre_action: Option<String>,
    /// Whether this rule is enabled.
    pub enabled: bool,
}

/// The minimum severity a rule gets when none is configured.
pub fn default_min_severity() -> (r: Severity)
    ensures
        r == Severity::Warning,
{
    Severity::Warning
}

/// The cooldown a rule gets when none is configured: five minutes.
pub fn default_cooldown() -> (r: u64)
    ensures
        r == 300,
{
    300
}

/// The daily trigger limit a rule gets when none is configured.
pub fn default_max_triggers() -> (r: u32)
    ensures
        r == 10,
{
    10
}

/// Rules are enabled unless configured otherwise.
pub fn default_enabled() -> (r: bool)
    ensures
        r,
{
    true
}

/// A rule built from literal parts.
fn make_rule(
    name: &str,
    event_pattern: &str,
    action: &str,
    min_severity: Severity,
    requires_approval: bool,
    cooldown_secs: u64,
    max_triggers_per_day: u32,
    pre_action: Option<String>,
) -> (r: RemediationRule)
    ensures
        r.name@ == name@,
        r.event_pattern@ == event_pattern@,
        r.action@ == action@,
        r.min_severity == min_severity,
        r.requires_approval == requires_approval,
        r.cooldown_secs == cooldown_secs,
        r.max_triggers_per_day == max_triggers_per_day,
        r.pre_action == pre_action,
        r.enabled,
{
    RemediationRule {
        name: owned(name),
        event_pattern: owned(event_pattern),
        action: owned(action),
        min_severity,
        requires_approval,
        cooldown_secs,
        max_triggers_per_day,
        pre_action,
        enabled: true,
    }
}

impl RemediationRule {
    /// A copy of the rule.
    pub fn duplicate(&self) -> (r: RemediationRule)
        ensures
            r == *self,
    {
        RemediationRule {
            name: self.name.clone(),
            event_pattern: self.event_pattern.clone(),
            action: self.action.clone(),
            min_severity: self.min_severity,
            requires_approval: self.requires_approval,
            cooldown_secs: self.cooldown_secs,
            max_triggers_per_day: self.max_triggers_per_day,
            pre_action: crate::text::clone_opt_string(&self.pre_action),
            enabled: self.enabled,
        }
    }
}

impl Default for RemediationRule {
    fn default() -> (r: RemediationRule)
        ensures
            r.name@ == "default"@,
            r.event_pattern@ == "*"@,
            r.action@ == "notify_user"@,
            r.min_severity == Severity::Warning,
            r.requires_approval,
            r.cooldown_secs == 300,
            r.max_triggers_per_day == 10,
            r.pre_action is None,
            r.enabled,
    {
        make_rule("default", "*", "notify_user", Severity::Warning, true, 300, 10, None)
    }
}

/// A copy of a list of rules.
pub fn duplicate_rules(v: &Vec<RemediationRule>) -> (r: Vec<RemediationRule>)
    ensures
        r@ == v@,
{
    let mut out: Vec<RemediationRule> = Vec::new();
    let mut i: usize = 0;
    while i < v.len()
        invariant
            i <= v.len(),
            out@ == v@.take(i as int),
        decreases v.len() - i,
    {
        out.push(v[i].duplicate());
        i = i + 1;
        assert(out@ =~= v@.take(i as int));
    }
    assert(v@.take(v@.len() as int) =~= v@);
    out
}

// ---------------------------------------------------------------------------
// Trigger history
// ---------------------------------------------------------------------------

/// Tracks rule trigger history for cooldowns and daily limits.
pub struct RuleTriggerHistory {
    /// Last trigger time per rule (milliseconds since the epoch).
    last_trigger: StringHashMap<i64>,
    /// Daily trigger counts per rule (reset when the UTC day changes).
    daily_counts: StringHashMap<u32>,
    /// The UTC day (counted from 1970-01-01) the daily counts belong to.
    daily_reset_date: Option<i64>,
}

impl RuleTriggerHistory {
    /// When each rule last triggered.
    pub closed spec fn last_map(self) -> Map<Seq<char>, i64> {
        self.last_trigger@
    }

    /// How often each rule triggered on the day the counts belong to.
    pub closed spec fn count_map(self) -> Map<Seq<char>, u32> {
        self.daily_counts@
    }

    /// The day the counts belong to, if any trigger was recorded.
    pub closed spec fn reset_day(self) -> Option<i64> {
        self.daily_reset_date
    }

    /// The stored count for a rule, zero when there is none.
    pub open spec fn stored_count(self, name: Seq<char>) -> int {
        if self.count_map().contains_key(name) { self.count_map()[name] as int } else { 0 }
    }

    /// Whether the counts belong to the UTC day of `now`.
    pub open spec fn counts_are_for(self, now: int) -> bool {
        self.reset_day() matches Some(d) && d == day_of(now)
    }

    /// Whether the rule triggered less than `cooldown_secs` whole seconds before `now`.
    pub open spec fn in_cooldown_spec(self, name: Seq<char>, cooldown_secs: u64, now: int) -> bool {
        self.last_map().contains_key(name)
            && seconds_between(now, self.last_map()[name] as int) < (cooldown_secs as i64) as int
    }

    /// Whether the rule reached `max_per_day` triggers on the UTC day of `now`.
    pub open spec fn exceeded_spec(self, name: Seq<char>, max_per_day: u32, now: int) -> bool {
        self.counts_are_for(now) && self.stored_count(name) >= max_per_day
    }

    /// The rule's trigger count on the UTC day of `now`.
    pub open spec fn daily_count_spec(self, name: Seq<char>, now: int) -> int {
        if self.counts_are_for(now) { self.stored_count(name) } else { 0 }
    }

    /// The history after the rule triggers at `now`.
    pub open spec fn after_trigger(self, other: RuleTriggerHistory, name: Seq<char>, now: int) -> bool {
        &&& other.last_map() == self.last_map().insert(name, now as i64)
        &&& other.reset_day() == Some(day_of(now) as i64)
        &&& if self.counts_are_for(now) {
            other.count_map() == self.count_map().insert(name, (self.stored_count(name) + 1) as u32)
        } else {
            other.count_map() == Map::<Seq<char>, u32>::empty().insert(name, 1u32)
        }
    }

    /// An empty history.
    pub fn new() -> (r: RuleTriggerHistory)
        ensures
            r.last_map() == Map::<Seq<char>, i64>::empty(),
            r.count_map() == Map::<Seq<char>, u32>::empty(),
            r.reset_day() is None,
    {
        RuleTriggerHistory {
            last_trigger: StringHashMap::new(),
            daily_counts: StringHashMap::new(),
            daily_reset_date: None,
        }
    }

    fn stored_count_exec(&self, rule_name: &str) -> (r: u32)
        ensures
            r == self.stored_count(rule_name@),
    {
        match self.daily_counts.get(rule_name) {
            Some(c) => *c,
            None => 0,
        }
    }

    /// Records that the rule triggered at `now`.
    pub fn record_trigger_at(&mut self, rule_name: &str, now: i64)
        requires
            old(self).counts_are_for(now as int) ==> old(self).stored_count(rule_name@) < u32::MAX,
        ensures
            old(self).after_trigger(*final(self), rule_name@, now as int),
    {
        self.last_trigger.insert(owned(rule_name), now);
        let today = day_number(now);
        let same_day = match self.daily_reset_date {
            Some(d) => d == today,
            None => false,
        };
        if !same_day {
            self.daily_counts.clear();
            self.daily_reset_date = Some(today);
        }
        let count = self.stored_count_exec(rule_name);
        self.daily_counts.insert(owned(rule_name), count + 1);
        proof {
            if !same_day {
                assert(self.daily_counts@ =~= Map::<Seq<char>, u32>::empty().insert(rule_name@, 1u32));
            }
        }
    }

    /// Records that the rule triggered now.
    pub fn record_trigger(&mut self, rule_name: &str)
        requires
            old(self).stored_count(rule_name@) < u32::MAX,
        ensures
            exists|now: int| in_range(now) && #[trigger] old(self).after_trigger(*final(self), rule_name@, now),
    {
        let now = now_millis();
        self.record_trigger_at(rule_name, now);
    }

    /// Whether the rule is in its cooldown at `now`.
    pub fn in_cooldown_at(&self, rule_name: &str, cooldown_secs: u64, now: i64) -> (r: bool)
        ensures
            r == self.in_cooldown_spec(rule_name@, cooldown_secs, now as int),
    {
        match self.last_trigger.get(rule_name) {
            Some(last) => {
                let elapsed = seconds_since(now, *last);
                elapsed < cooldown_secs as i64
            },
            None => false,
        }
    }

    /// Whether the rule is in its cooldown now.
    pub fn in_cooldown(&self, rule_name: &str, cooldown_secs: u64) -> (r: bool)
        ensures
            exists|now: int| in_range(now) && r == self.in_cooldown_spec(rule_name@, cooldown_secs, now),
    {
        let now = now_millis();
        self.in_cooldown_at(rule_name, cooldown_secs, now)
    }

    /// Whether the rule reached its daily limit on the day of `now`.
    pub fn exceeded_daily_limit_at(&self, rule_name: &str, max_per_day: u32, now: i64) -> (r: bool)
        ensures
            r == self.exceeded_spec(rule_name@, max_per_day, now as int),
    {
        let today = day_number(now);
        match self.daily_reset_date {
            Some(d) => {
                if d != today {
                    return false;
                }
            },
            None => {
                return false;
            },
        }
        self.stored_count_exec(rule_name) >= max_per_day
    }

    /// Whether the rule reached its daily limit today.
    pub fn exceeded_daily_limit(&self, rule_name: &str, max_per_day: u32) -> (r: bool)
        ensures
            exists|now: int| in_range(now) && r == self.exceeded_spec(rule_name@, max_per_day, now),
    {
        let now = now_millis();
        self.exceeded_daily_limit_at(rule_name, max_per_day, now)
    }

    /// The seconds of cooldown left for the rule at `now`, if it is in its cooldown.
    pub fn remaining_cooldown_at(&self, rule_name: &str, cooldown_secs: u64, now: i64) -> (r: Option<u64>)
        requires
            in_range(now as int),
            self.last_map().contains_key(rule_name@) ==> in_range(self.last_map()[rule_name@] as int),
        ensures
            self.in_cooldown_spec(rule_name@, cooldown_secs, now as int) ==> r == Some(
                ((cooldown_secs as i64) - seconds_between(now as int, self.last_map()[rule_name@] as int)) as u64,
            ),
            !self.in_cooldown_spec(rule_name@, cooldown_secs, now as int) ==> r is None,
    {
        match self.last_trigger.get(rule_name) {
            Some(last) => {
                let elapsed = seconds_since(now, *last);
                let limit = cooldown_secs as i64;
                if elapsed < limit {
                    let left: i128 = limit as i128 - elapsed as i128;
                    Some(left as u64)
                } else {
                    None
                }
            },
            None => None,
        }
    }

    /// The rule's trigger count on the day of `now`.
    pub fn daily_count_at(&self, rule_name: &str, now: i64) -> (r: u32)
        ensures
            r == self.daily_count_spec(rule_name@, now as int),
    {
        let today = day_number(now);
        match self.daily_reset_date {
            Some(d) => {
                if d != today {
                    return 0;
                }
            },
            None => {
                return 0;
            },
        }
        self.stored_count_exec(rule_name)
    }

    /// The rule's trigger count today.
    pub fn daily_count(&self, rule_name: &str) -> (r: u32)
        ensures
            exists|now: int| in_range(now) && r == self.daily_count_spec(rule_name@, now),
    {
        let now = now_millis();
        self.daily_count_at(rule_name, now)
    }
}

impl Default for RuleTriggerHistory {
    fn default() -> (r: RuleTriggerHistory)
        ensures
            r.last_map() == Map::<Seq<char>, i64>::empty(),
            r.count_map() == Map::<Seq<char>, u32>::empty(),
            r.reset_day() is None,
    {
        RuleTriggerHistory::new()
    }
}

// ---------------------------------------------------------------------------
// Policy
// ---------------------------------------------------------------------------

/// Whether `hour` lies in the quiet window from `start` to `end`, which wraps
/// past midnight when `start > end`.
pub open spec fn in_quiet_window(start: int, end: int, hour: int) -> bool {
    if start <= end {
        start <= hour && hour < end
    } else {
        hour >= start || hour < end
    }
}

/// Whether some entry of the blocklist, lower-cased, occurs in the lower-cased command.
pub open spec fn blocked_by(list: Seq<Seq<char>>, command: Seq<char>) -> bool {
    exists|i: int| 0 <= i < list.len() && contains_seq(lowercase(command), lowercase(#[trigger] list[i]))
}

/// What a rule's action string turns into for an event, given whether the string
/// is blocked as a command.
pub open spec fn rule_action_result(action: Seq<char>, event: SystemEvent, blocked: bool, r: Option<ActionType>) -> bool {
    if action == "restart_container"@ {
        match event {
            SystemEvent::ContainerCrashed { name, .. } => r == Some(ActionType::RestartContainer { name }),
            SystemEvent::ServiceUnreachable { service, .. } => r == Some(ActionType::RestartContainer { name: service }),
            _ => r is None,
        }
    } else if action == "rotate_logs"@ {
        r == Some(ActionType::RotateLogs)
    } else if action == "trigger_backup"@ {
        r == Some(ActionType::TriggerBackup)
    } else if action == "self_update"@ {
        r == Some(ActionType::SelfUpdate)
    } else if action == "notify_user"@ {
        r matches Some(ActionType::NotifyUser { message, urgency })
            && message@ == description_spec(event) && urgency == NotifyUrgency::Medium
    } else if action == "escalate"@ {
        r matches Some(ActionType::EscalateToHuman { reason }) && reason@ == description_spec(event)
    } else if blocked {
        r is None
    } else {
        r matches Some(ActionType::RunCommand { command, args, timeout_secs })
            && command@ == action && args@.len() == 0 && timeout_secs == 60
    }
}

/// The remediation policy manager.
pub struct RemediationPolicy {
    /// Configured rules.
    rules: Vec<RemediationRule>,
    /// Trigger history for cooldowns and limits.
    history: RuleTriggerHistory,
    /// Commands that are never allowed to be auto-executed.
    command_blocklist: Vec<String>,
    /// Quiet hours (hour of day, 0-23) when only critical actions are allowed.
    quiet_hours: (u8, u8),
}

impl RemediationPolicy {
    /// The configured rules.
    pub closed spec fn rule_list(self) -> Seq<RemediationRule> {
        self.rules@
    }

    /// The trigger history.
    pub closed spec fn trigger_history(self) -> RuleTriggerHistory {
        self.history
    }

    /// The blocked command fragments.
    pub closed spec fn blocklist(self) -> Seq<Seq<char>> {
        views(self.command_blocklist@)
    }

    /// The quiet hours `(start, end)`.
    pub closed spec fn quiet_window(self) -> (u8, u8) {
        self.quiet_hours
    }

    /// Whether `rule` fires for an event of type `event_type` at `severity` at `now`.
    pub open spec fn rule_applies(self, rule: RemediationRule, event_type: Seq<char>, severity: Severity, now: int) -> bool {
        &&& rule.enabled
        &&& (rule.event_pattern@ == "*"@ || rule.event_pattern@ == event_type)
        &&& severity_rank(severity) >= severity_rank(rule.min_severity)
        &&& !self.trigger_history().in_cooldown_spec(rule.name@, rule.cooldown_secs, now)
        &&& !self.trigger_history().exceeded_spec(rule.name@, rule.max_triggers_per_day, now)
    }

    /// Whether rule `i` is the first rule that fires.
    pub open spec fn first_applicable(self, i: int, event_type: Seq<char>, severity: Severity, now: int) -> bool {
        &&& 0 <= i < self.rule_list().len()
        &&& self.rule_applies(self.rule_list()[i], event_type, severity, now)
        &&& forall|j: int| 0 <= j < i ==> !self.rule_applies(#[trigger] self.rule_list()[j], event_type, severity, now)
    }

    /// Whether no rule fires.
    pub open spec fn none_applicable(self, event_type: Seq<char>, severity: Severity, now: int) -> bool {
        forall|j: int| 0 <= j < self.rule_list().len() ==> !self.rule_applies(#[trigger] self.rule_list()[j], event_type, severity, now)
    }

    /// Whether the policy is in its quiet hours at `now`.
    pub open spec fn quiet_at(self, now: int) -> bool {
        in_quiet_window(self.quiet_window().0 as int, self.quiet_window().1 as int, hour_of(now))
    }

    /// A policy with the given rules, the default blocklist, quiet hours 2 to 6
    /// and an empty history.
    pub fn new(rules: Vec<RemediationRule>) -> (r: RemediationPolicy)
        ensures
            r.rule_list() == rules@,
            r.blocklist() == default_blocklist_spec(),
            r.quiet_window() == (2u8, 6u8),
            r.trigger_history().last_map() == Map::<Seq<char>, i64>::empty(),
            r.trigger_history().count_map() == Map::<Seq<char>, u32>::empty(),
            r.trigger_history().reset_day() is None,
    {
        RemediationPolicy {
            rules,
            history: RuleTriggerHistory::new(),
            command_blocklist: RemediationPolicy::default_blocklist(),
            quiet_hours: (2, 6),
        }
    }

    /// The built-in remediation rules.
    pub fn default_rules() -> (r: Vec<RemediationRule>)
        ensures
            is_default_rule_set(r@),
    {
        let mut v: Vec<RemediationRule> = Vec::new();
        v.push(make_rule("container_crash_restart", "container_crashed", "restart_container", Severity::Warning, false, 300, 5, None));
        v.push(make_rule("disk_space_rotate_logs", "disk_space_low", "rotate_logs", Severity::Warning, false, 3600, 3, None));
        v.push(make_rule("update_notify", "update_available", "notify_user", Severity::Info, false, 86400, 1, None));
        v.push(make_rule("backup_retry", "backup_failed", "trigger_backup", Severity::Warning, false, 1800, 3, None));
        v.push(make_rule("service_restart", "service_unreachable", "restart_container", Severity::Critical, false, 600, 5, None));
        v
    }

    /// The built-in command blocklist.
    pub fn default_blocklist() -> (r: Vec<String>)
        ensures
            views(r@) == default_blocklist_spec(),
    {
        let mut v: Vec<String> = Vec::new();
        v.push(owned("rm -rf"));
        v.push(owned("rm -r /"));
        v.push(owned("dd if="));
        v.push(owned("mkfs"));
        v.push(owned("chmod 777"));
        v.push(owned("chmod -R 777"));
        v.push(owned("> /dev/"));
        v.push(owned(":(){ :|:& };:"));
        assert(views(v@) =~= default_blocklist_spec());
        v
    }

    /// Sets the quiet hours, each bound capped at 23.
    pub fn set_quiet_hours(&mut self, start: u8, end: u8)
        ensures
            final(self).quiet_window() == (
                if start < 23 { start } else { 23u8 },
                if end < 23 { end } else { 23u8 },
            ),
            final(self).rule_list() == old(self).rule_list(),
            final(self).trigger_history() == old(self).trigger_history(),
            final(self).blocklist() == old(self).blocklist(),
    {
        let s = if start < 23 { start } else { 23 };
        let e = if end < 23 { end } else { 23 };
        self.quiet_hours = (s, e);
    }

    /// The quiet hours `(start, end)`.
    pub fn quiet_hours(&self) -> (r: (u8, u8))
        ensures
            r == self.quiet_window(),
    {
        self.quiet_hours
    }

    /// Whether `now` falls in the quiet hours.
    pub fn is_quiet_hours_at(&self, now: i64) -> (r: bool)
        ensures
            r == self.quiet_at(now as int),
    {
        let hour = hour_of_day(now);
        let (start, end) = self.quiet_hours;
        if start <= end {
            hour >= start && hour < end
        } else {
            hour >= start || hour < end
        }
    }

    /// Whether it is quiet hours now.
    pub fn is_quiet_hours(&self) -> (r: bool)
        ensures
            exists|now: int| in_range(now) && r == self.quiet_at(now),
    {
        let now = now_millis();
        self.is_quiet_hours_at(now)
    }

    /// Adds a rule at the end of the list.
    pub fn add_rule(&mut self, rule: RemediationRule)
        ensures
            final(self).rule_list() == old(self).rule_list().push(rule),
            final(self).trigger_history() == old(self).trigger_history(),
            final(self).blocklist() == old(self).blocklist(),
            final(self).quiet_window() == old(self).quiet_window(),
    {
        self.rules.push(rule);
    }

    /// Removes every rule with the given name; says whether any was removed.
    pub fn remove_rule(&mut self, name: &str) -> (r: bool)
        ensures
            final(self).rule_list() == old(self).rule_list().filter(|rule: RemediationRule| rule.name@ != name@),
            r == (final(self).rule_list().len() < old(self).rule_list().len()),
            final(self).trigger_history() == old(self).trigger_history(),
            final(self).blocklist() == old(self).blocklist(),
            final(self).quiet_window() == old(self).quiet_window(),
    {
        let ghost pred = |rule: RemediationRule| rule.name@ != name@;
        let len_before = self.rules.len();
        let mut kept: Vec<RemediationRule> = Vec::new();
        let mut i: usize = 0;
        while i < self.rules.len()
            invariant
                i <= self.rules.len(),
                *self == *old(self),
                pred == (|rule: RemediationRule| rule.name@ != name@),
                kept@ == self.rules@.take(i as int).filter(pred),
            decreases self.rules.len() - i,
        {
            let keep = !str_eq(self.rules[i].name.as_str(), name);
            if keep {
                kept.push(self.rules[i].duplicate());
            }
            proof {
                let t = self.rules@.take(i + 1);
                assert(t.drop_last() =~= self.rules@.take(i as int));
                assert(t.last() == self.rules@[i as int]);
                assert(kept@ == t.filter(pred)) by {
                    reveal(Seq::filter);
                }
            }
            i = i + 1;
        }
        assert(self.rules@.take(self.rules@.len() as int) =~= self.rules@);
        self.rules = kept;
        self.rules.len() < len_before
    }

    /// The configured rules.
    pub fn rules(&self) -> (r: &[RemediationRule])
        ensures
            r@ == self.rule_list(),
    {
        self.rules.as_slice()
    }

    /// The index of the first rule that fires for the event at `now`.
    fn matching_index_at(&self, event: &SystemEvent, severity: Severity, now: i64) -> (r: Option<usize>)
        ensures
            match r {
                Some(i) => self.first_applicable(i as int, event_type_spec(*event), severity, now as int),
                None => self.none_applicable(event_type_spec(*event), severity, now as int),
            },
    {
        let event_type = event.event_type();
        let ghost et = event_type_spec(*event);
        let mut i: usize = 0;
        while i < self.rules.len()
            invariant
                i <= self.rules.len(),
                et == event_type_spec(*event),
                event_type@ == et,
                forall|j: int| 0 <= j < i ==> !self.rule_applies(#[trigger] self.rule_list()[j], et, severity, now as int),
            decreases self.rules.len() - i,
        {
            let rule = &self.rules[i];
            let applies = rule.enabled
                && (str_eq(rule.event_pattern.as_str(), "*") || str_eq(rule.event_pattern.as_str(), event_type))
                && !severity.is_below(&rule.min_severity)
                && !self.history.in_cooldown_at(rule.name.as_str(), rule.cooldown_secs, now)
                && !self.history.exceeded_daily_limit_at(rule.name.as_str(), rule.max_triggers_per_day, now);
            if applies {
                assert(*rule == self.rule_list()[i as int]);
                assert(self.rule_applies(self.rule_list()[i as int], et, severity, now as int));
                return Some(i);
            }
            i = i + 1;
        }
        None
    }

    /// The first enabled rule that matches the event's type (or `*`), whose minimum
    /// severity `severity` reaches, and that is neither in its cooldown nor over
    /// its daily limit at `now`.
    pub fn find_matching_rule_at(&self, event: &SystemEvent, severity: Severity, now: i64) -> (r: Option<&RemediationRule>)
        ensures
            match r {
                Some(rule) => exists|i: int|
                    self.first_applicable(i, event_type_spec(*event), severity, now as int)
                        && *rule == #[trigger] self.rule_list()[i],
                None => self.none_applicable(event_type_spec(*event), severity, now as int),
            },
    {
        match self.matching_index_at(event, severity, now) {
            Some(i) => Some(&self.rules[i]),
            None => None,
        }
    }

    /// The first rule that fires for the event now.
    pub fn find_matching_rule(&self, event: &SystemEvent, severity: Severity) -> (r: Option<&RemediationRule>)
        ensures
            exists|now: int| in_range(now) && #[trigger] self.find_result(r, event_type_spec(*event), severity, now),
    {
        let now = now_millis();
        let r = self.find_matching_rule_at(event, severity, now);
        assert(self.find_result(r, event_type_spec(*event), severity, now as int));
        r
    }

    /// What `find_matching_rule_at` returns for these inputs.
    pub open spec fn find_result(self, r: Option<&RemediationRule>, event_type: Seq<char>, severity: Severity, now: int) -> bool {
        match r {
            Some(rule) => exists|i: int| self.first_applicable(i, event_type, severity, now) && *rule == #[trigger] self.rule_list()[i],
            None => self.none_applicable(event_type, severity, now),
        }
    }

    /// Records that the rule triggered at `now`.
    pub fn record_trigger_at(&mut self, rule_name: &str, now: i64)
        requires
            old(self).trigger_history().counts_are_for(now as int)
                ==> old(self).trigger_history().stored_count(rule_name@) < u32::MAX,
        ensures
            old(self).trigger_history().after_trigger(final(self).trigger_history(), rule_name@, now as int),
            final(self).rule_list() == old(self).rule_list(),
            final(self).blocklist() == old(self).blocklist(),
            final(self).quiet_window() == old(self).quiet_window(),
    {
        self.history.record_trigger_at(rule_name, now);
    }

    /// Records that the rule triggered now.
    pub fn record_trigger(&mut self, rule_name: &str)
        requires
            old(self).trigger_history().stored_count(rule_name@) < u32::MAX,
        ensures
            exists|now: int| in_range(now) && #[trigger] old(self).trigger_history().after_trigger(final(self).trigger_history(), rule_name@, now),
            final(self).rule_list() == old(self).rule_list(),
            final(self).blocklist() == old(self).blocklist(),
            final(self).quiet_window() == old(self).quiet_window(),
    {
        let now = now_millis();
        self.record_trigger_at(rule_name, now);
    }

    /// Whether a command contains, ignoring case, an entry of the blocklist.
    pub fn is_command_blocked(&self, command: &str) -> (r: bool)
        ensures
            r == blocked_by(self.blocklist(), command@),
    {
        let cmd_lower = to_lowercase(command);
        let mut i: usize = 0;
        while i < self.command_blocklist.len()
            invariant
                i <= self.command_blocklist.len(),
                cmd_lower@ == lowercase(command@),
                self.blocklist().len() == self.command_blocklist@.len(),
                forall|j: int| 0 <= j < i ==> !contains_seq(lowercase(command@), lowercase(#[trigger] self.blocklist()[j])),
            decreases self.command_blocklist.len() - i,
        {
            let blocked_lower = to_lowercase(self.command_blocklist[i].as_str());
            if contains(cmd_lower.as_str(), blocked_lower.as_str()) {
                assert(self.blocklist()[i as int] == self.command_blocklist@[i as int]@);
                return true;
            }
            i = i + 1;
        }
        false
    }

    /// The action a rule's action string calls for, for the given event.
    pub fn action_from_rule(&self, rule: &RemediationRule, event: &SystemEvent) -> (r: Option<ActionType>)
        ensures
            rule_action_result(rule.action@, *event, blocked_by(self.blocklist(), rule.action@), r),
    {
        let a = rule.action.as_str();
        if str_eq(a, "restart_container") {
            match event {
                SystemEvent::ContainerCrashed { name, .. } => Some(ActionType::RestartContainer { name: name.clone() }),
                SystemEvent::ServiceUnreachable { service, .. } => Some(ActionType::RestartContainer { name: service.clone() }),
                _ => None,
            }
        } else if str_eq(a, "rotate_logs") {
            Some(ActionType::RotateLogs)
        } else if str_eq(a, "trigger_backup") {
            Some(ActionType::TriggerBackup)
        } else if str_eq(a, "self_update") {
            Some(ActionType::SelfUpdate)
        } else if str_eq(a, "notify_user") {
            Some(ActionType::NotifyUser { message: event.description(), urgency: NotifyUrgency::Medium })
        } else if str_eq(a, "escalate") {
            Some(ActionType::EscalateToHuman { reason: event.description() })
        } else if !self.is_command_blocked(a) {
            Some(ActionType::RunCommand { command: rule.action.clone(), args: Vec::new(), timeout_secs: 60 })
        } else {
            None
        }
    }

    /// The trigger history.
    pub fn history(&self) -> (r: &RuleTriggerHistory)
        ensures
            *r == self.trigger_history(),
    {
        &self.history
    }
}

/// The built-in rules: restart crashed containers, rotate logs when the disk runs
/// low, tell the user when an update is available, retry failed backups and
/// restart unreachable services.
pub open spec fn is_default_rule_set(r: Seq<RemediationRule>) -> bool {
    &&& r.len() == 5
    &&& r[0].name@ == "container_crash_restart"@
    &&& r[0].event_pattern@ == "container_crashed"@
    &&& r[0].action@ == "restart_container"@
    &&& r[0].min_severity == Severity::Warning
    &&& !r[0].requires_approval
    &&& r[0].cooldown_secs == 300
    &&& r[0].max_triggers_per_day == 5
    &&& r[0].pre_action is None
    &&& r[1].name@ == "disk_space_rotate_logs"@
    &&& r[1].event_pattern@ == "disk_space_low"@
    &&& r[1].action@ == "rotate_logs"@
    &&& r[1].min_severity == Severity::Warning
    &&& !r[1].requires_approval
    &&& r[1].cooldown_secs == 3600
    &&& r[1].max_triggers_per_day == 3
    &&& r[1].pre_action is None
    &&& r[2].name@ == "update_notify"@
    &&& r[2].event_pattern@ == "update_available"@
    &&& r[2].action@ == "notify_user"@
    &&& r[2].min_severity == Severity::Info
    &&& !r[2].requires_approval
    &&& r[2].cooldown_secs == 86400
    &&& r[2].max_triggers_per_day == 1
    &&& r[2].pre_action is None
    &&& r[3].name@ == "backup_retry"@
    &&& r[3].event_pattern@ == "backup_failed"@
    &&& r[3].action@ == "trigger_backup"@
    &&& r[3].min_severity == Severity::Warning
    &&& !r[3].requires_approval
    &&& r[3].cooldown_secs == 1800
    &&& r[3].max_triggers_per_day == 3
    &&& r[3].pre_action is None
    &&& r[4].name@ == "service_restart"@
    &&& r[4].event_pattern@ == "service_unreachable"@
    &&& r[4].action@ == "restart_container"@
    &&& r[4].min_severity == Severity::Critical
    &&& !r[4].requires_approval
    &&& r[4].cooldown_secs == 600
    &&& r[4].max_triggers_per_day == 5
    &&& r[4].pre_action is None
    &&& forall|i: int| 0 <= i < 5 ==> (#[trigger] r[i]).enabled
}

/// The fragments of the built-in blocklist.
pub open spec fn default_blocklist_spec() -> Seq<Seq<char>> {
    seq!["rm -rf"@, "rm -r /"@, "dd if="@, "mkfs"@, "chmod 777"@, "chmod -R 777"@, "> /dev/"@, ":(){ :|:& };:"@]
}

impl Default for RemediationPolicy {
    fn default() -> (r: RemediationPolicy)
        ensures
            is_default_rule_set(r.rule_list()),
            r.blocklist() == default_blocklist_spec(),
            r.quiet_window() == (2u8, 6u8),
            r.trigger_history().last_map() == Map::<Seq<char>, i64>::empty(),
            r.trigger_history().count_map() == Map::<Seq<char>, u32>::empty(),
            r.trigger_history().reset_day() is None,
    {
        RemediationPolicy::new(RemediationPolicy::default_rules())
    }
}

// ---------------------------------------------------------------------------
// Laws
// ---------------------------------------------------------------------------

/// A rule that has just triggered stays in its cooldown at every later instant
/// less than `cooldown_secs` whole seconds after the trigger.
pub proof fn law_trigger_starts_cooldown(
    h: RuleTriggerHistory,
    after: RuleTriggerHistory,
    name: Seq<char>,
    now: int,
    later: int,
    cooldown_secs: u64,
)
    requires
        i64::MIN <= now <= i64::MAX,
        h.after_trigger(after, name, now),
        now <= later,
        seconds_between(later, now) < (cooldown_secs as i64) as int,
    ensures
        after.in_cooldown_spec(name, cooldown_secs, later),
{
}

/// Each trigger adds one to the rule's count for the day of the trigger.
pub proof fn law_trigger_counts_once(h: RuleTriggerHistory, after: RuleTriggerHistory, name: Seq<char>, now: int)
    requires
        i64::MIN <= now <= i64::MAX,
        h.after_trigger(after, name, now),
        h.daily_count_spec(name, now) + 1 <= u32::MAX,
    ensures
        after.daily_count_spec(name, now) == h.daily_count_spec(name, now) + 1,
{
    assert(day_of(now) as i64 == day_of(now)) by {
        assert(-106751991168 <= day_of(now) <= 106751991167);
    }
}

/// A rule with a cooldown does not fire again at the instant it triggered.
pub proof fn law_no_refire_during_cooldown(
    p: RemediationPolicy,
    after: RemediationPolicy,
    rule: RemediationRule,
    event_type: Seq<char>,
    severity: Severity,
    now: int,
)
    requires
        i64::MIN <= now <= i64::MAX,
        p.trigger_history().after_trigger(after.trigger_history(), rule.name@, now),
        (rule.cooldown_secs as i64) > 0,
    ensures
        !after.rule_applies(rule, event_type, severity, now),
{
    law_trigger_starts_cooldown(p.trigger_history(), after.trigger_history(), rule.name@, now, now, rule.cooldown_secs);
}


/// Quiet hours that wrap past midnight (start after end) cover the hours from the
/// start to midnight and from midnight up to the end: an hour is quiet exactly
/// when it is at or after the start, or before the end. A window that does not
/// wrap covers the hours from its start up to its end. For example (22, 6) is
/// quiet at 23:00 and 03:00 and not at 12:00.
pub proof fn law_quiet_window_wraps(p: RemediationPolicy, now: int)
    ensures
        p.quiet_window().0 > p.quiet_window().1 && hour_of(now) >= p.quiet_window().0 as int ==> p.quiet_at(now),
        p.quiet_window().0 > p.quiet_window().1 && hour_of(now) < p.quiet_window().1 as int ==> p.quiet_at(now),
        p.quiet_window().0 > p.quiet_window().1 && p.quiet_window().1 as int <= hour_of(now)
            && hour_of(now) < p.quiet_window().0 as int ==> !p.quiet_at(now),
        p.quiet_window().0 <= p.quiet_window().1 ==> (p.quiet_at(now)
            <==> (p.quiet_window().0 as int <= hour_of(now) && hour_of(now) < p.quiet_window().1 as int)),
{
}

} // verus!
