//! The daemon's decisions at start and while running: where the configuration is
//! read from, which modules are set up, the reactive engine's configuration, the
//! health reported for each service as it starts, and the command-line reports.
//!
//! Starting services, spawning tasks and printing are the caller's; it hands over
//! what each step found and follows what these functions decide.

use vstd::prelude::*;
use crate::coding::manager::ClaudeError;
use crate::config::{join_path, path_join, Config, ConfigError, ReactiveRule};
use crate::health::{HealthManager, HealthStatus, ModuleHealth};
use crate::http::api::HttpError;
use crate::lock::LockError;
use crate::maint::manager::MaintError;
use crate::media::manager::MediaError;
use crate::reactive::engine::{NotificationsConfig, ReactiveConfig, ReactiveError, ThresholdsConfig};
use crate::reactive::policy::RemediationRule;
use crate::reactive::types::Severity;
use crate::secrets::SecretsError;
use crate::server::manager::ContainerError;
use crate::state::StateError;
use crate::text::{decimal, owned, u64_to_string, views};

verus! {

/// Errors that stop the daemon.
#[derive(Debug)]
pub enum DaemonError {
    Config(ConfigError),
    Lock(LockError),
    State(StateError),
    /// The terminal failed (its message).
    Tui(String),
    Secrets(SecretsError),
    /// The Telegram bot failed (its message).
    Telegram(String),
    Http(HttpError),
    Container(ContainerError),
    Media(MediaError),
    ClaudeModule(ClaudeError),
    Maint(MaintError),
    Reactive(ReactiveError),
    /// The daemon is shutting down.
    Shutdown,
}

impl DaemonError {
    /// The error message.
    pub fn message(&self) -> (r: String)
        ensures
            self is Shutdown ==> r@ == "daemon is shutting down"@,
            self matches DaemonError::Tui(m) ==> r@ == "TUI error: "@ + m@,
            self matches DaemonError::Telegram(m) ==> r@ == "telegram error: "@ + m@,
    {
        match self {
            DaemonError::Config(e) => owned("configuration error: ").concat(e.message().as_str()),
            DaemonError::Lock(e) => owned("lock error: ").concat(e.message().as_str()),
            DaemonError::State(e) => owned("state error: ").concat(e.message().as_str()),
            DaemonError::Tui(m) => owned("TUI error: ").concat(m.as_str()),
            DaemonError::Secrets(e) => owned("secrets error: ").concat(e.message().as_str()),
            DaemonError::Telegram(m) => owned("telegram error: ").concat(m.as_str()),
            DaemonError::Http(e) => owned("http error: ").concat(e.message().as_str()),
            DaemonError::Container(e) => owned("container error: ").concat(e.message().as_str()),
            DaemonError::Media(e) => owned("media error: ").concat(e.message().as_str()),
            DaemonError::ClaudeModule(e) => owned("coding error: ").concat(e.message().as_str()),
            DaemonError::Maint(e) => owned("maintenance error: ").concat(e.message().as_str()),
            DaemonError::Reactive(e) => owned("reactive error: ").concat(e.message().as_str()),
            DaemonError::Shutdown => owned("daemon is shutting down"),
        }
    }
}

// ---------------------------------------------------------------------------
// Start-up
// ---------------------------------------------------------------------------

/// The first candidate that exists.
pub open spec fn first_existing(candidates: Seq<Seq<char>>, exists: Seq<bool>) -> Option<Seq<char>>
    decreases candidates.len(),
{
    if candidates.len() == 0 || exists.len() == 0 {
        None
    } else if exists[0] {
        Some(candidates[0])
    } else {
        first_existing(candidates.skip(1), exists.skip(1))
    }
}

/// The configuration file: the one given, else the first default path that exists,
/// else `.henry/config.toml` under the home directory (`.` when unknown).
pub open spec fn config_path_choice(explicit: Option<Seq<char>>, candidates: Seq<Seq<char>>, exists: Seq<bool>, home: Option<Seq<char>>) -> Seq<char> {
    match explicit {
        Some(p) => p,
        None => match first_existing(candidates, exists) {
            Some(p) => p,
            None => path_join(path_join(crate::config::home_or_dot(home), ".henry"@), "config.toml"@),
        },
    }
}

/// Chooses the configuration file.
pub fn choose_config_path(explicit: Option<&str>, candidates: &Vec<String>, exists: &Vec<bool>, home: Option<&str>) -> (r: String)
    requires
        candidates@.len() == exists@.len(),
    ensures
        r@ == config_path_choice(
            match explicit { Some(p) => Some(p@), None => None },
            views(candidates@),
            exists@,
            match home { Some(h) => Some(h@), None => None },
        ),
{
    if let Some(p) = explicit {
        return owned(p);
    }
    let ghost cs = views(candidates@);
    let mut i: usize = 0;
    assert(cs.skip(0) =~= cs);
    assert(exists@.skip(0) =~= exists@);
    while i < candidates.len()
        invariant
            i <= candidates.len(),
            candidates@.len() == exists@.len(),
            cs == views(candidates@),
            explicit is None,
            first_existing(cs, exists@) == first_existing(cs.skip(i as int), exists@.skip(i as int)),
        decreases candidates.len() - i,
    {
        if exists[i] {
            assert(cs.skip(i as int)[0] == candidates@[i as int]@);
            return candidates[i].clone();
        }
        assert(cs.skip(i as int).skip(1) =~= cs.skip(i + 1));
        assert(exists@.skip(i as int).skip(1) =~= exists@.skip(i + 1));
        i = i + 1;
    }
    let base = match home {
        Some(h) => owned(h),
        None => owned("."),
    };
    let dir = join_path(base.as_str(), ".henry");
    join_path(dir.as_str(), "config.toml")
}

/// The state database: `state/henry.db` under the data directory.
pub fn state_db_path(config: &Config) -> (r: String)
    ensures
        r@ == path_join(path_join(config.daemon.data_dir@, "state"@), "henry.db"@),
{
    let dir = join_path(config.daemon.data_dir.as_str(), "state");
    join_path(dir.as_str(), "henry.db")
}

/// A configured remediation rule as the engine holds it: at least of warning
/// severity, and enabled.
pub open spec fn engine_rule_ok(c: ReactiveRule, r: RemediationRule) -> bool {
    &&& r.name@ == c.name@
    &&& r.event_pattern@ == c.event_pattern@
    &&& r.action@ == c.action@
    &&& r.min_severity == Severity::Warning
    &&& r.requires_approval == c.requires_approval
    &&& r.cooldown_secs == c.cooldown_secs
    &&& r.max_triggers_per_day == c.max_triggers_per_day
    &&& r.pre_action == c.pre_action
    &&& r.enabled
}

/// The reactive engine's configuration from the daemon configuration.
pub fn reactive_config_from(config: &Config) -> (r: ReactiveConfig)
    ensures
        r.enabled == config.reactive.enabled,
        r.check_interval_secs == config.reactive.check_interval_secs,
        r.max_actions_per_hour == config.reactive.max_actions_per_hour,
        r.max_concurrent_actions == config.reactive.max_concurrent_actions,
        r.thresholds.disk_warning_percent == config.reactive.thresholds.disk_warning_percent,
        r.thresholds.disk_critical_percent == config.reactive.thresholds.disk_critical_percent,
        r.thresholds.memory_warning_percent == config.reactive.thresholds.memory_warning_percent,
        r.thresholds.memory_critical_percent == config.reactive.thresholds.memory_critical_percent,
        r.thresholds.cpu_warning_percent == config.reactive.thresholds.cpu_warning_percent,
        r.thresholds.cpu_alert_duration_secs == config.reactive.thresholds.cpu_alert_duration_secs,
        r.rules@.len() == config.reactive.rules@.len(),
        forall|i: int| 0 <= i < r.rules@.len() ==> engine_rule_ok(config.reactive.rules@[i], #[trigger] r.rules@[i]),
        r.notifications.verbosity@ == config.reactive.notifications.verbosity@,
        r.notifications.include_routine_fixes == config.reactive.notifications.include_routine_fixes,
        r.notifications.batch_interval_secs == config.reactive.notifications.batch_interval_secs,
        r.quiet_hours == Some((config.reactive.quiet_hours_start, config.reactive.quiet_hours_end)),
{
    let c = &config.reactive;
    let mut rules: Vec<RemediationRule> = Vec::new();
    let mut i: usize = 0;
    while i < c.rules.len()
        invariant
            i <= c.rules.len(),
            c == &config.reactive,
            rules@.len() == i,
            forall|j: int| 0 <= j < i ==> engine_rule_ok(c.rules@[j], #[trigger] rules@[j]),
        decreases c.rules.len() - i,
    {
        let rule = &c.rules[i];
        rules.push(RemediationRule {
            name: rule.name.clone(),
            event_pattern: rule.event_pattern.clone(),
            action: rule.action.clone(),
            min_severity: Severity::Warning,
            requires_approval: rule.requires_approval,
            cooldown_secs: rule.cooldown_secs,
            max_triggers_per_day: rule.max_triggers_per_day,
            pre_action: crate::text::clone_opt_string(&rule.pre_action),
            enabled: true,
        });
        i = i + 1;
    }
    ReactiveConfig {
        enabled: c.enabled,
        check_interval_secs: c.check_interval_secs,
        max_actions_per_hour: c.max_actions_per_hour,
        max_concurrent_actions: c.max_concurrent_actions,
        thresholds: ThresholdsConfig {
            disk_warning_percent: c.thresholds.disk_warning_percent,
            disk_critical_percent: c.thresholds.disk_critical_percent,
            memory_warning_percent: c.thresholds.memory_warning_percent,
            memory_critical_percent: c.thresholds.memory_critical_percent,
            cpu_warning_percent: c.thresholds.cpu_warning_percent,
            cpu_alert_duration_secs: c.thresholds.cpu_alert_duration_secs,
        },
        rules,
        notifications: NotificationsConfig {
            verbosity: c.notifications.verbosity.clone(),
            include_routine_fixes: c.notifications.include_routine_fixes,
            batch_interval_secs: c.notifications.batch_interval_secs,
        },
        quiet_hours: Some((c.quiet_hours_start, c.quiet_hours_end)),
    }
}

/// Whether the agent engine is set up: it is enabled and both the coding module
/// and container management are available.
pub fn agent_can_start(config: &Config, claude_ready: bool, containers_ready: bool) -> (r: bool)
    ensures
        r == (config.agent.enabled && claude_ready && containers_ready),
{
    config.agent.enabled && claude_ready && containers_ready
}

// ---------------------------------------------------------------------------
// Modules
// ---------------------------------------------------------------------------

/// The modules in the order they are registered, each with whether it is enabled.
pub open spec fn module_flags_of(config: Config) -> Seq<(Seq<char>, bool)> {
    seq![
        ("server"@, config.containers.enabled),
        ("media"@, config.media.enabled),
        ("coding"@, config.coding.enabled),
        ("maint"@, config.maint.enabled),
        ("telegram"@, config.telegram.enabled),
        ("http"@, config.http.enabled),
        ("reactive"@, config.reactive.enabled),
        ("agent"@, config.agent.enabled),
    ]
}

/// The modules with whether each is enabled.
pub fn module_flags(config: &Config) -> (r: Vec<(&'static str, bool)>)
    ensures
        r@.len() == 8,
        forall|i: int| 0 <= i < 8 ==> (#[trigger] r@[i]).0@ == module_flags_of(*config)[i].0 && r@[i].1 == module_flags_of(*config)[i].1,
{
    let mut v: Vec<(&'static str, bool)> = Vec::new();
    v.push(("server", config.containers.enabled));
    v.push(("media", config.media.enabled));
    v.push(("coding", config.coding.enabled));
    v.push(("maint", config.maint.enabled));
    v.push(("telegram", config.telegram.enabled));
    v.push(("http", config.http.enabled));
    v.push(("reactive", config.reactive.enabled));
    v.push(("agent", config.agent.enabled));
    v
}

/// The number of enabled modules.
pub open spec fn enabled_count_of(config: Config) -> nat {
    (if config.containers.enabled { 1nat } else { 0nat }) + (if config.media.enabled { 1nat } else { 0nat })
        + (if config.coding.enabled { 1nat } else { 0nat }) + (if config.maint.enabled { 1nat } else { 0nat })
        + (if config.telegram.enabled { 1nat } else { 0nat }) + (if config.http.enabled { 1nat } else { 0nat })
        + (if config.reactive.enabled { 1nat } else { 0nat }) + (if config.agent.enabled { 1nat } else { 0nat })
}

/// The number of enabled modules.
pub fn enabled_module_count(config: &Config) -> (r: usize)
    ensures
        r == enabled_count_of(*config),
{
    let flags = module_flags(config);
    let mut n: usize = 0;
    let mut i: usize = 0;
    while i < flags.len()
        invariant
            i <= flags.len(),
            flags@.len() == 8,
            forall|k: int| 0 <= k < 8 ==> (#[trigger] flags@[k]).1 == module_flags_of(*config)[k].1,
            n <= i,
            n == (if i > 0 && flags@[0].1 { 1int } else { 0int }) + (if i > 1 && flags@[1].1 { 1int } else { 0int })
                + (if i > 2 && flags@[2].1 { 1int } else { 0int }) + (if i > 3 && flags@[3].1 { 1int } else { 0int })
                + (if i > 4 && flags@[4].1 { 1int } else { 0int }) + (if i > 5 && flags@[5].1 { 1int } else { 0int })
                + (if i > 6 && flags@[6].1 { 1int } else { 0int }) + (if i > 7 && flags@[7].1 { 1int } else { 0int }),
        decreases flags.len() - i,
    {
        if flags[i].1 {
            n = n + 1;
        }
        i = i + 1;
    }
    proof {
        assert(flags@[0].1 == config.containers.enabled);
        assert(flags@[1].1 == config.media.enabled);
        assert(flags@[2].1 == config.coding.enabled);
        assert(flags@[3].1 == config.maint.enabled);
        assert(flags@[4].1 == config.telegram.enabled);
        assert(flags@[5].1 == config.http.enabled);
        assert(flags@[6].1 == config.reactive.enabled);
        assert(flags@[7].1 == config.agent.enabled);
    }
    n
}

/// The log line announcing the registered modules.
pub fn registered_message(config: &Config) -> (r: String)
    ensures
        r@ == "Registered "@ + decimal(enabled_count_of(*config)) + " modules"@,
{
    let n = enabled_module_count(config);
    let d = u64_to_string(n as u64);
    owned("Registered ").concat(d.as_str()).concat(" modules")
}

/// A module report as the interface registers it: healthy when enabled, disabled
/// otherwise, checked at `now`.
pub open spec fn registered_ok(name: Seq<char>, enabled: bool, now: i64, m: ModuleHealth) -> bool {
    &&& m.name@ == name
    &&& m.enabled == enabled
    &&& m.status == if enabled { HealthStatus::Healthy } else { HealthStatus::Unknown }
    &&& m.message is None
    &&& m.last_check == now
    &&& m.metrics@.len() == 0
}

/// The module reports the interface starts with, in registration order.
pub fn registered_modules_at(config: &Config, now: i64) -> (r: Vec<ModuleHealth>)
    ensures
        r@.len() == 8,
        forall|i: int| 0 <= i < 8 ==> registered_ok(module_flags_of(*config)[i].0, module_flags_of(*config)[i].1, now, #[trigger] r@[i]),
{
    let flags = module_flags(config);
    let mut out: Vec<ModuleHealth> = Vec::new();
    let mut i: usize = 0;
    while i < flags.len()
        invariant
            i <= flags.len(),
            flags@.len() == 8,
            forall|k: int| 0 <= k < 8 ==> (#[trigger] flags@[k]).0@ == module_flags_of(*config)[k].0 && flags@[k].1 == module_flags_of(*config)[k].1,
            out@.len() == i,
            forall|k: int| 0 <= k < i ==> registered_ok(module_flags_of(*config)[k].0, module_flags_of(*config)[k].1, now, #[trigger] out@[k]),
        decreases flags.len() - i,
    {
        let (name, enabled) = flags[i];
        let mut m = ModuleHealth::new_at(name, now);
        if enabled {
            m.status = HealthStatus::Healthy;
        } else {
            m.enabled = false;
        }
        out.push(m);
        i = i + 1;
    }
    out
}

/// The registered modules have distinct names.
pub proof fn lemma_module_names_distinct(c: Config)
    ensures
        forall|a: int, b: int| 0 <= a < 8 && 0 <= b < 8 && a != b ==>
            (#[trigger] module_flags_of(c)[a]).0 != (#[trigger] module_flags_of(c)[b]).0,
{
    reveal_strlit("server");
    reveal_strlit("media");
    reveal_strlit("coding");
    reveal_strlit("maint");
    reveal_strlit("telegram");
    reveal_strlit("http");
    reveal_strlit("reactive");
    reveal_strlit("agent");
    let n = module_flags_of(c);
    assert(n[0].0.len() == 6 && n[0].0[0] == 's' && n[0].0[1] == 'e');
    assert(n[1].0.len() == 5 && n[1].0[0] == 'm' && n[1].0[1] == 'e');
    assert(n[2].0.len() == 6 && n[2].0[0] == 'c' && n[2].0[1] == 'o');
    assert(n[3].0.len() == 5 && n[3].0[0] == 'm' && n[3].0[1] == 'a');
    assert(n[4].0.len() == 8 && n[4].0[0] == 't' && n[4].0[1] == 'e');
    assert(n[5].0.len() == 4 && n[5].0[0] == 'h' && n[5].0[1] == 't');
    assert(n[6].0.len() == 8 && n[6].0[0] == 'r' && n[6].0[1] == 'e');
    assert(n[7].0.len() == 5 && n[7].0[0] == 'a' && n[7].0[1] == 'g');
}

/// Registers every module with the health manager at `now` as the headless daemon
/// does: each with whether it is enabled, and the enabled ones reported healthy.
pub fn register_modules_at(health: &mut HealthManager, config: &Config, now: i64)
    ensures
        forall|i: int| 0 <= i < 8 ==> (crate::health::module_named(final(health).module_list(), #[trigger] module_flags_of(*config)[i].0)
            matches Some(m) && registered_ok(module_flags_of(*config)[i].0, module_flags_of(*config)[i].1, now, m)),
        final(health).start_time() == old(health).start_time(),
        final(health).version_of() == old(health).version_of(),
{
    let flags = module_flags(config);
    let mut i: usize = 0;
    while i < flags.len()
        invariant
            i <= flags.len(),
            flags@.len() == 8,
            forall|k: int| 0 <= k < 8 ==> (#[trigger] flags@[k]).0@ == module_flags_of(*config)[k].0 && flags@[k].1 == module_flags_of(*config)[k].1,
            forall|k: int| 0 <= k < i ==> (crate::health::module_named(health.module_list(), #[trigger] module_flags_of(*config)[k].0)
                matches Some(m) && registered_ok(module_flags_of(*config)[k].0, module_flags_of(*config)[k].1, now, m)),
            health.start_time() == old(health).start_time(),
            health.version_of() == old(health).version_of(),
        decreases flags.len() - i,
    {
        let (name, enabled) = flags[i];
        health.register_module_at(name, enabled, now);
        if enabled {
            let mut m = ModuleHealth::new_at(name, now);
            m.status = HealthStatus::Healthy;
            health.update_module(m);
        }
        proof {
            lemma_module_names_distinct(*config);
        }
        i = i + 1;
    }
}

// ---------------------------------------------------------------------------
// Service health at start-up
// ---------------------------------------------------------------------------

/// What was found while starting the services.
#[derive(Debug)]
pub struct ServiceFacts {
    /// Whether container management came up.
    pub containers_ready: bool,
    /// The media module's reachability of the API and of the container; nothing
    /// when the module was not set up.
    pub media: Option<(bool, bool)>,
    /// Whether the coding module has an API client; nothing when it was not set up.
    pub coding: Option<bool>,
    /// How starting the maintenance scheduler went (its error message on failure);
    /// nothing when the module was not set up.
    pub maint: Option<Result<(), String>>,
    /// How reading the Telegram bot token went (the error message on failure).
    pub telegram_token: Result<(), String>,
    /// How starting the reactive engine went (its error message on failure);
    /// nothing when the engine was not set up.
    pub reactive: Option<Result<(), String>>,
    /// Whether the agent engine was set up.
    pub agent_ready: bool,
}

/// A health update: module name, status and message.
pub type Update = (Seq<char>, HealthStatus, Option<Seq<char>>);

/// The update for a healthy module.
pub open spec fn up(name: Seq<char>) -> Update {
    (name, HealthStatus::Healthy, None)
}

/// The update for an unhealthy module, with the reason.
pub open spec fn down(name: Seq<char>, why: Seq<char>) -> Update {
    (name, HealthStatus::Unhealthy, Some(why))
}

/// The update of container management, when enabled.
pub open spec fn server_updates(c: Config, f: ServiceFacts) -> Seq<Update> {
    if c.containers.enabled {
        seq![if f.containers_ready { up("server"@) } else { down("server"@, "No container runtime found"@) }]
    } else {
        Seq::empty()
    }
}

/// The update of the media module, when enabled.
pub open spec fn media_updates(c: Config, f: ServiceFacts) -> Seq<Update> {
    if c.media.enabled {
        seq![match f.media {
            Some((api, running)) => if api { up("media"@) } else if running {
                down("media"@, "Jellyfin API not reachable"@)
            } else {
                down("media"@, "Jellyfin container not running"@)
            },
            None => down("media"@, "Media manager not initialized"@),
        }]
    } else {
        Seq::empty()
    }
}

/// The update of the coding module, when enabled.
pub open spec fn claude_updates(c: Config, f: ServiceFacts) -> Seq<Update> {
    if c.coding.enabled {
        seq![match f.coding {
            Some(has_key) => if has_key { up("coding"@) } else { down("coding"@, "API key not configured"@) },
            None => down("coding"@, "Coding manager not initialized"@),
        }]
    } else {
        Seq::empty()
    }
}

/// The update of the maintenance module, when enabled.
pub open spec fn maint_updates(c: Config, f: ServiceFacts) -> Seq<Update> {
    if c.maint.enabled {
        seq![match f.maint {
            Some(Ok(())) => up("maint"@),
            Some(Err(e)) => down("maint"@, "Scheduler error: "@ + e@),
            None => down("maint"@, "Maintenance manager not initialized"@),
        }]
    } else {
        Seq::empty()
    }
}

/// The update of the HTTP server, when enabled.
pub open spec fn http_updates(c: Config) -> Seq<Update> {
    if c.http.enabled { seq![up("http"@)] } else { Seq::empty() }
}

/// The updates before the Telegram step: container management, media, coding sessions,
/// maintenance and the HTTP server, each only when enabled.
pub open spec fn updates_before_telegram(c: Config, f: ServiceFacts) -> Seq<Update> {
    server_updates(c, f) + media_updates(c, f) + claude_updates(c, f) + maint_updates(c, f) + http_updates(c)
}

/// Whether start-up goes on past the Telegram step: it stops there when the bot is
/// enabled and its token could not be read.
pub open spec fn continues_after_telegram(c: Config, f: ServiceFacts) -> bool {
    !(c.telegram.enabled && f.telegram_token is Err)
}

/// The updates of the reactive engine, when enabled and set up.
pub open spec fn reactive_updates(c: Config, f: ServiceFacts) -> Seq<Update> {
    if c.reactive.enabled {
        match f.reactive {
            Some(Ok(())) => seq![up("reactive"@)],
            Some(Err(e)) => seq![down("reactive"@, "Failed to start: "@ + e@)],
            None => Seq::empty(),
        }
    } else {
        Seq::empty()
    }
}

/// The update of the agent engine, when enabled.
pub open spec fn agent_updates(c: Config, f: ServiceFacts) -> Seq<Update> {
    if c.agent.enabled {
        seq![if f.agent_ready { up("agent"@) } else { down("agent"@, "Agent engine not initialized"@) }]
    } else {
        Seq::empty()
    }
}

/// The updates from the Telegram step on: a failed token read ends start-up there.
pub open spec fn updates_from_telegram(c: Config, f: ServiceFacts) -> Seq<Update> {
    if c.telegram.enabled && f.telegram_token is Err {
        seq![down("telegram"@, "Failed to get token: "@ + f.telegram_token->Err_0@)]
    } else {
        (if c.telegram.enabled { seq![up("telegram"@)] } else { Seq::empty() }) + reactive_updates(c, f) + agent_updates(c, f)
    }
}

/// The health updates made while starting the services, in order.
pub open spec fn startup_updates(c: Config, f: ServiceFacts) -> Seq<Update> {
    updates_before_telegram(c, f) + updates_from_telegram(c, f)
}

/// Whether a report carries an update, checked at `now`.
pub open spec fn report_ok(u: Update, now: i64, m: ModuleHealth) -> bool {
    &&& m.name@ == u.0
    &&& m.status == u.1
    &&& match u.2 { Some(t) => m.message matches Some(x) && x@ == t, None => m.message is None }
    &&& m.enabled
    &&& m.last_check == now
    &&& m.metrics@.len() == 0
}

/// Whether reports carry updates one for one.
pub open spec fn reports_match(r: Seq<ModuleHealth>, u: Seq<Update>, now: i64) -> bool {
    r.len() == u.len() && forall|i: int| 0 <= i < r.len() ==> report_ok(u[i], now, #[trigger] r[i])
}

proof fn lemma_match_append(r1: Seq<ModuleHealth>, u1: Seq<Update>, r2: Seq<ModuleHealth>, u2: Seq<Update>, now: i64)
    requires
        reports_match(r1, u1, now),
        reports_match(r2, u2, now),
    ensures
        reports_match(r1 + r2, u1 + u2, now),
{
    assert forall|i: int| 0 <= i < (r1 + r2).len() implies report_ok((u1 + u2)[i], now, #[trigger] (r1 + r2)[i]) by {
        if i < r1.len() {
            assert((r1 + r2)[i] == r1[i]);
            assert((u1 + u2)[i] == u1[i]);
        } else {
            assert((r1 + r2)[i] == r2[i - r1.len()]);
            assert((u1 + u2)[i] == u2[i - u1.len()]);
        }
    }
}

fn report(name: &str, why: Option<String>, now: i64) -> (r: ModuleHealth)
    ensures
        report_ok(
            match why { Some(w) => down(name@, w@), None => up(name@) },
            now,
            r,
        ),
{
    let mut m = ModuleHealth::new_at(name, now);
    match why {
        Some(w) => {
            m.status = HealthStatus::Unhealthy;
            m.message = Some(w);
        },
        None => {
            m.status = HealthStatus::Healthy;
        },
    }
    m
}

fn one(m: ModuleHealth) -> (r: Vec<ModuleHealth>)
    ensures
        r@ == seq![m],
{
    let mut v: Vec<ModuleHealth> = Vec::new();
    v.push(m);
    assert(v@ =~= seq![m]);
    v
}

fn server_reports(config: &Config, facts: &ServiceFacts, now: i64) -> (r: Vec<ModuleHealth>)
    ensures
        reports_match(r@, server_updates(*config, *facts), now),
{
    if !config.containers.enabled {
        return Vec::new();
    }
    if facts.containers_ready {
        one(report("server", None, now))
    } else {
        one(report("server", Some(owned("No container runtime found")), now))
    }
}

fn media_reports(config: &Config, facts: &ServiceFacts, now: i64) -> (r: Vec<ModuleHealth>)
    ensures
        reports_match(r@, media_updates(*config, *facts), now),
{
    if !config.media.enabled {
        return Vec::new();
    }
    match facts.media {
        Some((api, running)) => {
            if api {
                one(report("media", None, now))
            } else if running {
                one(report("media", Some(owned("Jellyfin API not reachable")), now))
            } else {
                one(report("media", Some(owned("Jellyfin container not running")), now))
            }
        },
        None => one(report("media", Some(owned("Media manager not initialized")), now)),
    }
}

fn claude_reports(config: &Config, facts: &ServiceFacts, now: i64) -> (r: Vec<ModuleHealth>)
    ensures
        reports_match(r@, claude_updates(*config, *facts), now),
{
    if !config.coding.enabled {
        return Vec::new();
    }
    match facts.coding {
        Some(has_key) => {
            if has_key {
                one(report("coding", None, now))
            } else {
                one(report("coding", Some(owned("API key not configured")), now))
            }
        },
        None => one(report("coding", Some(owned("Coding manager not initialized")), now)),
    }
}

fn maint_reports(config: &Config, facts: &ServiceFacts, now: i64) -> (r: Vec<ModuleHealth>)
    ensures
        reports_match(r@, maint_updates(*config, *facts), now),
{
    if !config.maint.enabled {
        return Vec::new();
    }
    match &facts.maint {
        Some(Ok(())) => one(report("maint", None, now)),
        Some(Err(e)) => one(report("maint", Some(owned("Scheduler error: ").concat(e.as_str())), now)),
        None => one(report("maint", Some(owned("Maintenance manager not initialized")), now)),
    }
}

fn reactive_reports(config: &Config, facts: &ServiceFacts, now: i64) -> (r: Vec<ModuleHealth>)
    ensures
        reports_match(r@, reactive_updates(*config, *facts), now),
{
    if !config.reactive.enabled {
        return Vec::new();
    }
    match &facts.reactive {
        Some(Ok(())) => one(report("reactive", None, now)),
        Some(Err(e)) => one(report("reactive", Some(owned("Failed to start: ").concat(e.as_str())), now)),
        None => Vec::new(),
    }
}

fn agent_reports(config: &Config, facts: &ServiceFacts, now: i64) -> (r: Vec<ModuleHealth>)
    ensures
        reports_match(r@, agent_updates(*config, *facts), now),
{
    if !config.agent.enabled {
        return Vec::new();
    }
    if facts.agent_ready {
        one(report("agent", None, now))
    } else {
        one(report("agent", Some(owned("Agent engine not initialized")), now))
    }
}

/// Whether start-up goes on past the Telegram step.
pub fn startup_continues(config: &Config, facts: &ServiceFacts) -> (r: bool)
    ensures
        r == continues_after_telegram(*config, *facts),
{
    !(config.telegram.enabled && facts.telegram_token.is_err())
}

/// The health reports made while starting the services, in order, checked at `now`.
#[verifier::rlimit(50)]
#[verifier::spinoff_prover]
pub fn startup_reports(config: &Config, facts: &ServiceFacts, now: i64) -> (r: Vec<ModuleHealth>)
    ensures
        reports_match(r@, startup_updates(*config, *facts), now),
{
    let mut out = server_reports(config, facts, now);
    let mut m = media_reports(config, facts, now);
    let mut c = claude_reports(config, facts, now);
    let mut t = maint_reports(config, facts, now);
    proof {
        lemma_match_append(out@, server_updates(*config, *facts), m@, media_updates(*config, *facts), now);
        lemma_match_append(out@ + m@, server_updates(*config, *facts) + media_updates(*config, *facts), c@, claude_updates(*config, *facts), now);
        lemma_match_append(out@ + m@ + c@, server_updates(*config, *facts) + media_updates(*config, *facts) + claude_updates(*config, *facts),
            t@, maint_updates(*config, *facts), now);
    }
    out.append(&mut m);
    out.append(&mut c);
    out.append(&mut t);
    if config.http.enabled {
        let ghost before = out@;
        out.push(report("http", None, now));
        proof {
            lemma_match_append(before, server_updates(*config, *facts) + media_updates(*config, *facts) + claude_updates(*config, *facts)
                + maint_updates(*config, *facts), seq![out@.last()], http_updates(*config), now);
            assert(out@ =~= before + seq![out@.last()]);
        }
    } else {
        assert(out@ =~= out@ + Seq::<ModuleHealth>::empty());
        assert(updates_before_telegram(*config, *facts) =~= server_updates(*config, *facts) + media_updates(*config, *facts)
            + claude_updates(*config, *facts) + maint_updates(*config, *facts));
    }
    let ghost pre = out@;
    assert(reports_match(pre, updates_before_telegram(*config, *facts), now));
    if config.telegram.enabled {
        match &facts.telegram_token {
            Err(e) => {
                out.push(report("telegram", Some(owned("Failed to get token: ").concat(e.as_str())), now));
                proof {
                    lemma_match_append(pre, updates_before_telegram(*config, *facts), seq![out@.last()],
                        updates_from_telegram(*config, *facts), now);
                    assert(out@ =~= pre + seq![out@.last()]);
                }
                return out;
            },
            Ok(()) => out.push(report("telegram", None, now)),
        }
    }
    let ghost tel = out@.skip(pre.len() as int);
    assert(out@ =~= pre + tel);
    assert(reports_match(tel, if config.telegram.enabled { seq![up("telegram"@)] } else { Seq::<Update>::empty() }, now));
    let mut rr = reactive_reports(config, facts, now);
    let mut ar = agent_reports(config, facts, now);
    proof {
        let tu: Seq<Update> = if config.telegram.enabled { seq![up("telegram"@)] } else { Seq::empty() };
        lemma_match_append(tel, tu, rr@, reactive_updates(*config, *facts), now);
        lemma_match_append(tel + rr@, tu + reactive_updates(*config, *facts), ar@, agent_updates(*config, *facts), now);
        lemma_match_append(pre, updates_before_telegram(*config, *facts), tel + rr@ + ar@, tu + reactive_updates(*config, *facts)
            + agent_updates(*config, *facts), now);
        assert(pre + (tel + rr@ + ar@) =~= out@ + rr@ + ar@);
    }
    out.append(&mut rr);
    out.append(&mut ar);
    out
}

// ---------------------------------------------------------------------------
// Command-line reports
// ---------------------------------------------------------------------------

/// The lines of `henry status`: whether an instance runs (with its pid, or unknown
/// pid for 0), and then the lock port and PID file.
pub fn status_report(running: Option<u32>, lock_port: u16, pid_file: &str) -> (r: Vec<String>)
    ensures
        running is None ==> views(r@) == seq!["Henry is not running"@],
        running matches Some(p) ==> views(r@) == seq![
            if p == 0 { "Henry is running (PID unknown)"@ } else { "Henry is running (PID "@ + decimal(p as nat) + ")"@ },
            "  Lock port: "@ + decimal(lock_port as nat),
            "  PID file:  "@ + pid_file@,
        ],
{
    let mut out: Vec<String> = Vec::new();
    match running {
        Some(p) => {
            if p == 0 {
                out.push(owned("Henry is running (PID unknown)"));
            } else {
                let d = u64_to_string(p as u64);
                out.push(owned("Henry is running (PID ").concat(d.as_str()).concat(")"));
            }
            let port = u64_to_string(lock_port as u64);
            out.push(owned("  Lock port: ").concat(port.as_str()));
            out.push(owned("  PID file:  ").concat(pid_file));
            assert(views(out@) =~= seq![
                if p == 0 { "Henry is running (PID unknown)"@ } else { "Henry is running (PID "@ + decimal(p as nat) + ")"@ },
                "  Lock port: "@ + decimal(lock_port as nat),
                "  PID file:  "@ + pid_file@,
            ]);
        },
        None => {
            out.push(owned("Henry is not running"));
            assert(views(out@) =~= seq!["Henry is not running"@]);
        },
    }
    out
}

/// The lines of `henry check` for a valid configuration: the enabled modules with
/// their main setting.
pub fn check_report(config: &Config) -> (r: Vec<String>)
    ensures
        r@.len() >= 3,
        r@[0]@ == "Configuration is valid"@,
        r@[1]@.len() == 0,
        r@[2]@ == "Enabled modules:"@,
        r@.len() == 3 + (if config.containers.enabled { 1int } else { 0 }) + (if config.telegram.enabled { 1int } else { 0 })
            + (if config.http.enabled { 1int } else { 0 }) + (if config.media.enabled { 1int } else { 0 })
            + (if config.coding.enabled { 1int } else { 0 }),
{
    let mut out: Vec<String> = Vec::new();
    out.push(owned("Configuration is valid"));
    out.push(String::new());
    out.push(owned("Enabled modules:"));
    if config.containers.enabled {
        let p = if config.containers.use_podman { "true" } else { "false" };
        out.push(owned("  ✓ Containers (Podman: ").concat(p).concat(")"));
    }
    if config.telegram.enabled {
        let n = u64_to_string(config.telegram.allowed_users.len() as u64);
        out.push(owned("  ✓ Telegram (").concat(n.as_str()).concat(" allowed users)"));
    }
    if config.http.enabled {
        let n = u64_to_string(config.http.port as u64);
        out.push(owned("  ✓ HTTP API (port ").concat(n.as_str()).concat(")"));
    }
    if config.media.enabled {
        let n = u64_to_string(config.media.library_paths.len() as u64);
        out.push(owned("  ✓ Media (").concat(n.as_str()).concat(" library paths)"));
    }
    if config.coding.enabled {
        let n = u64_to_string(config.coding.max_sessions as u64);
        out.push(owned("  ✓ Coding sessions (max ").concat(n.as_str()).concat(" sessions)"));
    }
    out
}

/// The text of a new configuration file: a comment header, then the encoded
/// configuration.
pub fn init_file_text(toml: &str) -> (r: String)
    ensures
        r@ == "# Henry Configuration\n# See https://github.com/rishitv/henry for documentation\n#\n# Secret references use 1Password CLI format:\n#   op://vault/item/field\n#\n\n"@ + toml@,
{
    owned("# Henry Configuration\n# See https://github.com/rishitv/henry for documentation\n#\n# Secret references use 1Password CLI format:\n#   op://vault/item/field\n#\n\n").concat(toml)
}

// ---------------------------------------------------------------------------
// Laws
// ---------------------------------------------------------------------------

/// When the Telegram token cannot be read, start-up ends with the Telegram report:
/// neither the reactive engine nor the agent engine is reported.
pub proof fn law_token_failure_ends_startup(c: Config, f: ServiceFacts)
    requires
        c.telegram.enabled,
        f.telegram_token is Err,
    ensures
        startup_updates(c, f).last().0 == "telegram"@,
        forall|i: int| 0 <= i < startup_updates(c, f).len() ==>
            (#[trigger] startup_updates(c, f)[i]).0 != "reactive"@ && startup_updates(c, f)[i].0 != "agent"@,
{
    reveal_strlit("server");
    reveal_strlit("media");
    reveal_strlit("coding");
    reveal_strlit("maint");
    reveal_strlit("http");
    reveal_strlit("telegram");
    reveal_strlit("reactive");
    reveal_strlit("agent");
    let u = startup_updates(c, f);
    let b = updates_before_telegram(c, f);
    assert(u =~= b + seq![down("telegram"@, "Failed to get token: "@ + f.telegram_token->Err_0@)]);
    assert forall|i: int| 0 <= i < u.len() implies (#[trigger] u[i]).0 != "reactive"@ && u[i].0 != "agent"@ by {
        let n = u[i].0;
        assert(n == "server"@ || n == "media"@ || n == "coding"@ || n == "maint"@ || n == "http"@ || n == "telegram"@);
        if n == "reactive"@ {
            assert(n[0] == 'r');
        }
        if n == "agent"@ {
            assert(n[0] == 'a');
        }
    }
}

/// Whether a name is one of the registered modules.
pub open spec fn is_module_name(n: Seq<char>) -> bool {
    n == "server"@ || n == "media"@ || n == "coding"@ || n == "maint"@
        || n == "telegram"@ || n == "http"@ || n == "reactive"@ || n == "agent"@
}

/// Whether every update names a registered module.
pub open spec fn all_known(s: Seq<Update>) -> bool {
    forall|j: int| 0 <= j < s.len() ==> is_module_name(#[trigger] s[j].0)
}

proof fn lemma_known_concat(a: Seq<Update>, b: Seq<Update>)
    requires
        all_known(a),
        all_known(b),
    ensures
        all_known(a + b),
{
    assert forall|j: int| 0 <= j < (a + b).len() implies is_module_name(#[trigger] (a + b)[j].0) by {
        if j < a.len() {
            assert((a + b)[j] == a[j]);
        } else {
            assert((a + b)[j] == b[j - a.len()]);
        }
    }
}

/// Every start-up report names one of the registered modules.
pub proof fn law_startup_reports_known_modules(c: Config, f: ServiceFacts)
    ensures
        all_known(startup_updates(c, f)),
{
    let s = server_updates(c, f);
    let m = media_updates(c, f);
    let cl = claude_updates(c, f);
    let mt = maint_updates(c, f);
    let h = http_updates(c);
    assert(all_known(s));
    assert(all_known(m));
    assert(all_known(cl));
    assert(all_known(mt));
    assert(all_known(h));
    lemma_known_concat(s, m);
    lemma_known_concat(s + m, cl);
    lemma_known_concat(s + m + cl, mt);
    lemma_known_concat(s + m + cl + mt, h);
    let t = updates_from_telegram(c, f);
    if c.telegram.enabled && f.telegram_token is Err {
        assert(all_known(t));
    } else {
        let tg: Seq<Update> = if c.telegram.enabled { seq![up("telegram"@)] } else { Seq::empty() };
        let r = reactive_updates(c, f);
        let ag = agent_updates(c, f);
        assert(all_known(tg));
        assert(all_known(r));
        assert(all_known(ag));
        lemma_known_concat(tg, r);
        lemma_known_concat(tg + r, ag);
    }
    lemma_known_concat(updates_before_telegram(c, f), t);
}

} // verus!
