//! Health monitoring for the daemon: module health reports, their aggregation, and
//! human-readable rendering of sizes and durations.
//!
//! Gathering the system metrics themselves (CPU, memory, disks) is left to the
//! caller; this module keeps and judges what was gathered.

use vstd::prelude::*;
use crate::clock::{in_range, now_millis, seconds_between, seconds_since};
use crate::float32::Float32;
use crate::numfmt::{format_scaled, scaled_fixed};
use crate::text::{clone_opt_string, decimal, owned, set_pair, str_eq, u64_to_string, with_pair};

verus! {

/// Errors of health probes.
#[derive(Debug)]
pub enum HealthError {
    /// A probe failed.
    ProbeFailed(String),
    /// No module of that name is registered.
    ModuleNotFound(String),
}

impl HealthError {
    /// The error's message, as `Display` renders it.
    pub fn message(&self) -> (r: String)
        ensures
            r@ == match self {
                HealthError::ProbeFailed(s) => "probe failed: "@ + s@,
                HealthError::ModuleNotFound(s) => "module not found: "@ + s@,
            },
    {
        match self {
            HealthError::ProbeFailed(s) => owned("probe failed: ").concat(s.as_str()),
            HealthError::ModuleNotFound(s) => owned("module not found: ").concat(s.as_str()),
        }
    }
}

/// Disk usage of one mount point.
#[derive(Debug)]
pub struct DiskMetrics {
    pub mount_point: String,
    pub total: u64,
    pub used: u64,
    pub available: u64,
    /// Percentage of the disk in use.
    pub percent: Float32,
}

/// System metrics snapshot.
#[derive(Debug)]
pub struct SystemMetrics {
    /// CPU usage percentage (0-100).
    pub cpu_percent: Float32,
    /// Memory used in bytes.
    pub memory_used: u64,
    /// Total memory in bytes.
    pub memory_total: u64,
    /// Memory usage percentage.
    pub memory_percent: Float32,
    /// Disk usage by mount point.
    pub disks: Vec<DiskMetrics>,
    /// Time of measurement (milliseconds since the epoch).
    pub timestamp: i64,
}

/// Module health status.
#[derive(Clone, Copy, Debug, PartialEq, Eq, Structural)]
pub enum HealthStatus {
    /// Module is healthy and operational.
    Healthy,
    /// Module is running but degraded.
    Degraded,
    /// Module is unhealthy.
    Unhealthy,
    /// Module health is unknown.
    Unknown,
}

/// The lower-case name of a status.
pub open spec fn status_name(s: HealthStatus) -> Seq<char> {
    match s {
        HealthStatus::Healthy => "healthy"@,
        HealthStatus::Degraded => "degraded"@,
        HealthStatus::Unhealthy => "unhealthy"@,
        HealthStatus::Unknown => "unknown"@,
    }
}

impl HealthStatus {
    /// The status name.
    pub fn as_str(&self) -> (r: &'static str)
        ensures
            r@ == status_name(*self),
    {
        match self {
            HealthStatus::Healthy => "healthy",
            HealthStatus::Degraded => "degraded",
            HealthStatus::Unhealthy => "unhealthy",
            HealthStatus::Unknown => "unknown",
        }
    }

    /// The status name as an owned string (what `Display` prints).
    pub fn to_string(&self) -> (r: String)
        ensures
            r@ == status_name(*self),
    {
        owned(self.as_str())
    }
}

/// Module health report.
#[derive(Debug)]
pub struct ModuleHealth {
    pub name: String,
    pub status: HealthStatus,
    pub enabled: bool,
    pub message: Option<String>,
    /// Time of the last check (milliseconds since the epoch).
    pub last_check: i64,
    /// Module-specific metrics, one entry per key, in the order the keys were
    /// first set.
    pub metrics: Vec<(String, String)>,
}

/// Two reports that agree in every field, the metric lists by content.
pub open spec fn same_module(a: ModuleHealth, b: ModuleHealth) -> bool {
    &&& a.name == b.name
    &&& a.status == b.status
    &&& a.enabled == b.enabled
    &&& a.message == b.message
    &&& a.last_check == b.last_check
    &&& a.metrics@ == b.metrics@
}

impl ModuleHealth {
    /// A report for a module checked at `now`, status unknown, enabled.
    pub fn new_at(name: &str, now: i64) -> (r: ModuleHealth)
        ensures
            r.name@ == name@,
            r.status == HealthStatus::Unknown,
            r.enabled,
            r.message is None,
            r.last_check == now,
            r.metrics@.len() == 0,
    {
        ModuleHealth {
            name: owned(name),
            status: HealthStatus::Unknown,
            enabled: true,
            message: None,
            last_check: now,
            metrics: Vec::new(),
        }
    }

    /// A report for a module, checked now, status unknown, enabled.
    pub fn new(name: &str) -> (r: ModuleHealth)
        ensures
            r.name@ == name@,
            r.status == HealthStatus::Unknown,
            r.enabled,
            r.message is None,
            in_range(r.last_check as int),
            r.metrics@.len() == 0,
    {
        ModuleHealth::new_at(name, now_millis())
    }

    /// The report marked healthy, checked now.
    pub fn healthy(self) -> (r: ModuleHealth)
        ensures
            r.status == HealthStatus::Healthy,
            in_range(r.last_check as int),
            r.name == self.name,
            r.enabled == self.enabled,
            r.message == self.message,
            r.metrics == self.metrics,
    {
        let mut m = self;
        m.status = HealthStatus::Healthy;
        m.last_check = now_millis();
        m
    }

    /// The report marked unhealthy with a message, checked now.
    pub fn unhealthy(self, message: &str) -> (r: ModuleHealth)
        ensures
            r.status == HealthStatus::Unhealthy,
            r.message matches Some(m) && m@ == message@,
            in_range(r.last_check as int),
            r.name == self.name,
            r.enabled == self.enabled,
            r.metrics == self.metrics,
    {
        let mut m = self;
        m.status = HealthStatus::Unhealthy;
        m.message = Some(owned(message));
        m.last_check = now_millis();
        m
    }

    /// The report marked degraded with a message, checked now.
    pub fn degraded(self, message: &str) -> (r: ModuleHealth)
        ensures
            r.status == HealthStatus::Degraded,
            r.message matches Some(m) && m@ == message@,
            in_range(r.last_check as int),
            r.name == self.name,
            r.enabled == self.enabled,
            r.metrics == self.metrics,
    {
        let mut m = self;
        m.status = HealthStatus::Degraded;
        m.message = Some(owned(message));
        m.last_check = now_millis();
        m
    }

    /// The report of a disabled module: status unknown.
    pub fn disabled(self) -> (r: ModuleHealth)
        ensures
            !r.enabled,
            r.status == HealthStatus::Unknown,
            r.name == self.name,
            r.message == self.message,
            r.last_check == self.last_check,
            r.metrics == self.metrics,
    {
        let mut m = self;
        m.enabled = false;
        m.status = HealthStatus::Unknown;
        m
    }

    /// The report with a metric set: an earlier value for the key is replaced.
    pub fn with_metric(self, key: &str, value: &str) -> (r: ModuleHealth)
        ensures
            exists|k: String, v: String| k@ == key@ && v@ == value@ && r.metrics@ == with_pair(self.metrics@, k, v),
            r.name == self.name,
            r.status == self.status,
            r.enabled == self.enabled,
            r.message == self.message,
            r.last_check == self.last_check,
    {
        let mut m = self;
        let k = owned(key);
        let v = owned(value);
        let ghost (gk, gv) = (k, v);
        set_pair(&mut m.metrics, k, v);
        assert(gk@ == key@ && gv@ == value@ && m.metrics@ == with_pair(self.metrics@, gk, gv));
        m
    }

    /// A copy of the report.
    pub fn duplicate(&self) -> (r: ModuleHealth)
        ensures
            same_module(r, *self),
    {
        let mut metrics: Vec<(String, String)> = Vec::new();
        let mut i: usize = 0;
        while i < self.metrics.len()
            invariant
                i <= self.metrics.len(),
                metrics@ == self.metrics@.take(i as int),
            decreases self.metrics.len() - i,
        {
            let (k, v) = &self.metrics[i];
            metrics.push((k.clone(), v.clone()));
            i = i + 1;
            assert(metrics@ =~= self.metrics@.take(i as int));
        }
        assert(self.metrics@.take(self.metrics@.len() as int) =~= self.metrics@);
        ModuleHealth {
            name: self.name.clone(),
            status: self.status,
            enabled: self.enabled,
            message: clone_opt_string(&self.message),
            last_check: self.last_check,
            metrics,
        }
    }
}

/// Whether some enabled module has the given status.
pub open spec fn enabled_with(modules: Seq<ModuleHealth>, s: HealthStatus) -> bool {
    exists|i: int| 0 <= i < modules.len() && (#[trigger] modules[i]).enabled && modules[i].status == s
}

/// The overall status of a set of modules: the worst status among the enabled ones
/// (unhealthy, then degraded, then unknown), healthy when all are healthy or none
/// is enabled.
pub open spec fn overall_status(modules: Seq<ModuleHealth>) -> HealthStatus {
    if enabled_with(modules, HealthStatus::Unhealthy) {
        HealthStatus::Unhealthy
    } else if enabled_with(modules, HealthStatus::Degraded) {
        HealthStatus::Degraded
    } else if enabled_with(modules, HealthStatus::Unknown) {
        HealthStatus::Unknown
    } else {
        HealthStatus::Healthy
    }
}

/// Overall health snapshot.
#[derive(Debug)]
pub struct HealthSnapshot {
    pub version: String,
    pub uptime_secs: u64,
    pub started_at: i64,
    pub system: SystemMetrics,
    pub modules: Vec<ModuleHealth>,
    pub overall_status: HealthStatus,
}

/// Whether no two modules share a name.
pub open spec fn unique_names(s: Seq<ModuleHealth>) -> bool {
    forall|i: int, j: int| 0 <= i < s.len() && 0 <= j < s.len() && i != j ==> (#[trigger] s[i]).name@ != (#[trigger] s[j]).name@
}

/// Whether a module of that name is in the table.
pub open spec fn has_module(s: Seq<ModuleHealth>, name: Seq<char>) -> bool {
    exists|i: int| 0 <= i < s.len() && (#[trigger] s[i]).name@ == name
}

/// The table's report for `name`, if there is one.
pub open spec fn module_named(s: Seq<ModuleHealth>, name: Seq<char>) -> Option<ModuleHealth> {
    if has_module(s, name) {
        Some(s[choose|i: int| 0 <= i < s.len() && (#[trigger] s[i]).name@ == name])
    } else {
        None
    }
}

/// In a table with unique names, the report at `i` is the one named `s[i].name`.
pub proof fn lemma_module_named(s: Seq<ModuleHealth>, i: int)
    requires
        unique_names(s),
        0 <= i < s.len(),
    ensures
        module_named(s, s[i].name@) == Some(s[i]),
{
    let name = s[i].name@;
    let k = choose|k: int| 0 <= k < s.len() && (#[trigger] s[k]).name@ == name;
    assert(0 <= k < s.len() && s[k].name@ == name);
    if k != i {
        assert(s[i].name@ != s[k].name@);
    }
}

/// Health manager for collecting and aggregating health data.
pub struct HealthManager {
    started_at: i64,
    version: String,
    modules: Vec<ModuleHealth>,
}

impl HealthManager {
    #[verifier::type_invariant]
    spec fn names_are_unique(self) -> bool {
        unique_names(self.modules@)
    }

    /// The module reports, in registration order.
    pub closed spec fn module_list(self) -> Seq<ModuleHealth> {
        self.modules@
    }

    /// When the manager started.
    pub closed spec fn start_time(self) -> i64 {
        self.started_at
    }

    /// The daemon version the manager reports.
    pub closed spec fn version_of(self) -> Seq<char> {
        self.version@
    }

    /// A manager started at `now` for the given version, with no modules.
    pub fn new_at(version: &str, now: i64) -> (r: HealthManager)
        ensures
            r.start_time() == now,
            r.version_of() == version@,
            r.module_list().len() == 0,
    {
        HealthManager { started_at: now, version: owned(version), modules: Vec::new() }
    }

    /// A manager started now.
    pub fn new(version: &str) -> (r: HealthManager)
        ensures
            in_range(r.start_time() as int),
            r.version_of() == version@,
            r.module_list().len() == 0,
    {
        HealthManager::new_at(version, now_millis())
    }

    /// Stores a report, replacing the one of the same name if there is one.
    pub fn update_module(&mut self, health: ModuleHealth)
        ensures
            unique_names(final(self).module_list()),
            module_named(final(self).module_list(), health.name@) == Some(health),
            forall|n: Seq<char>| n != health.name@ ==>
                #[trigger] module_named(final(self).module_list(), n) == module_named(old(self).module_list(), n),
            final(self).start_time() == old(self).start_time(),
            final(self).version_of() == old(self).version_of(),
    {
        proof {
            use_type_invariant(&*self);
        }
        let ghost old_list = self.modules@;
        let mut list: Vec<ModuleHealth> = Vec::new();
        std::mem::swap(&mut list, &mut self.modules);
        assert(list@ == old_list);
        let mut i: usize = 0;
        let mut found = false;
        while !found && i < list.len()
            invariant
                i <= list.len(),
                list@ == old_list,
                unique_names(old_list),
                found ==> i < list.len() && old_list[i as int].name@ == health.name@,
                !found ==> forall|j: int| 0 <= j < i ==> (#[trigger] old_list[j]).name@ != health.name@,
            decreases list.len() - i + (if found { 0int } else { 1int }),
        {
            if str_eq(list[i].name.as_str(), health.name.as_str()) {
                found = true;
            } else {
                i = i + 1;
            }
        }
        if found {
            let ghost name = health.name@;
            list.set(i, health);
            proof {
                let nl = list@;
                assert forall|a: int, b: int| 0 <= a < nl.len() && 0 <= b < nl.len() && a != b implies
                    (#[trigger] nl[a]).name@ != (#[trigger] nl[b]).name@ by {
                    if a != i as int && b != i as int {
                        assert(nl[a] == old_list[a] && nl[b] == old_list[b]);
                    } else if a == i as int {
                        assert(old_list[b].name@ != old_list[a].name@);
                    } else {
                        assert(old_list[a].name@ != old_list[b].name@);
                    }
                }
                lemma_module_named(nl, i as int);
                assert forall|n: Seq<char>| n != name implies
                    #[trigger] module_named(nl, n) == module_named(old_list, n) by {
                    if has_module(old_list, n) {
                        let k = choose|k: int| 0 <= k < old_list.len() && (#[trigger] old_list[k]).name@ == n;
                        assert(k != i);
                        assert(nl[k] == old_list[k]);
                        lemma_module_named(old_list, k);
                        lemma_module_named(nl, k);
                    } else {
                        if has_module(nl, n) {
                            let k = choose|k: int| 0 <= k < nl.len() && (#[trigger] nl[k]).name@ == n;
                            assert(k != i);
                            assert(old_list[k] == nl[k]);
                        }
                    }
                }
            }
        } else {
            let ghost name = health.name@;
            list.push(health);
            proof {
                let nl = list@;
                assert forall|a: int, b: int| 0 <= a < nl.len() && 0 <= b < nl.len() && a != b implies
                    (#[trigger] nl[a]).name@ != (#[trigger] nl[b]).name@ by {
                    if a < old_list.len() && b < old_list.len() {
                        assert(nl[a] == old_list[a] && nl[b] == old_list[b]);
                    } else if a < old_list.len() {
                        assert(nl[a] == old_list[a]);
                    } else {
                        assert(nl[b] == old_list[b]);
                    }
                }
                lemma_module_named(nl, old_list.len() as int);
                assert forall|n: Seq<char>| n != name implies
                    #[trigger] module_named(nl, n) == module_named(old_list, n) by {
                    if has_module(old_list, n) {
                        let k = choose|k: int| 0 <= k < old_list.len() && (#[trigger] old_list[k]).name@ == n;
                        assert(nl[k] == old_list[k]);
                        lemma_module_named(old_list, k);
                        lemma_module_named(nl, k);
                    } else {
                        if has_module(nl, n) {
                            let k = choose|k: int| 0 <= k < nl.len() && (#[trigger] nl[k]).name@ == n;
                            if k < old_list.len() {
                                assert(old_list[k] == nl[k]);
                            }
                        }
                    }
                }
            }
        }
        self.modules = list;
    }

    /// Registers a module as checked at `now`, status unknown; a disabled module is
    /// recorded as disabled. Replaces an earlier report of the same name.
    pub fn register_module_at(&mut self, name: &str, enabled: bool, now: i64)
        ensures
            unique_names(final(self).module_list()),
            module_named(final(self).module_list(), name@) matches Some(m)
                && m.name@ == name@ && m.status == HealthStatus::Unknown && m.enabled == enabled
                && m.message is None && m.last_check == now && m.metrics@.len() == 0,
            forall|n: Seq<char>| n != name@ ==>
                #[trigger] module_named(final(self).module_list(), n) == module_named(old(self).module_list(), n),
            final(self).start_time() == old(self).start_time(),
            final(self).version_of() == old(self).version_of(),
    {
        let mut health = ModuleHealth::new_at(name, now);
        if !enabled {
            health = health.disabled();
        }
        self.update_module(health);
    }

    /// Registers a module as checked now.
    pub fn register_module(&mut self, name: &str, enabled: bool)
        ensures
            unique_names(final(self).module_list()),
            module_named(final(self).module_list(), name@) matches Some(m)
                && m.name@ == name@ && m.status == HealthStatus::Unknown && m.enabled == enabled
                && m.message is None && in_range(m.last_check as int) && m.metrics@.len() == 0,
            forall|n: Seq<char>| n != name@ ==>
                #[trigger] module_named(final(self).module_list(), n) == module_named(old(self).module_list(), n),
            final(self).start_time() == old(self).start_time(),
            final(self).version_of() == old(self).version_of(),
    {
        let now = now_millis();
        self.register_module_at(name, enabled, now);
    }

    /// A copy of the report for a module.
    pub fn get_module(&self, name: &str) -> (r: Option<ModuleHealth>)
        ensures
            match module_named(self.module_list(), name@) {
                Some(m) => r matches Some(x) && same_module(x, m),
                None => r is None,
            },
    {
        proof {
            use_type_invariant(self);
        }
        let mut i: usize = 0;
        while i < self.modules.len()
            invariant
                i <= self.modules.len(),
                unique_names(self.modules@),
                forall|j: int| 0 <= j < i ==> (#[trigger] self.modules@[j]).name@ != name@,
            decreases self.modules.len() - i,
        {
            if str_eq(self.modules[i].name.as_str(), name) {
                proof {
                    lemma_module_named(self.modules@, i as int);
                }
                return Some(self.modules[i].duplicate());
            }
            i = i + 1;
        }
        None
    }

    /// Copies of all module reports.
    pub fn get_all_modules(&self) -> (r: Vec<ModuleHealth>)
        ensures
            r@.len() == self.module_list().len(),
            forall|i: int| 0 <= i < r@.len() ==> same_module(#[trigger] r@[i], self.module_list()[i]),
    {
        let mut out: Vec<ModuleHealth> = Vec::new();
        let mut i: usize = 0;
        while i < self.modules.len()
            invariant
                i <= self.modules.len(),
                out@.len() == i,
                forall|j: int| 0 <= j < i ==> same_module(#[trigger] out@[j], self.modules@[j]),
            decreases self.modules.len() - i,
        {
            out.push(self.modules[i].duplicate());
            i = i + 1;
        }
        out
    }

    /// The overall status of a set of module reports.
    pub fn calculate_overall_status(modules: &[ModuleHealth]) -> (r: HealthStatus)
        ensures
            r == overall_status(modules@),
    {
        let mut any_unhealthy = false;
        let mut any_degraded = false;
        let mut any_unknown = false;
        let mut i: usize = 0;
        while i < modules.len()
            invariant
                i <= modules.len(),
                any_unhealthy == enabled_with(modules@.take(i as int), HealthStatus::Unhealthy),
                any_degraded == enabled_with(modules@.take(i as int), HealthStatus::Degraded),
                any_unknown == enabled_with(modules@.take(i as int), HealthStatus::Unknown),
            decreases modules.len() - i,
        {
            let m = &modules[i];
            let ghost pre = modules@.take(i as int);
            let ghost post = modules@.take(i + 1);
            proof {
                assert forall|s: HealthStatus| enabled_with(post, s) == (enabled_with(pre, s) || (m.enabled && m.status == s)) by {
                    if enabled_with(post, s) {
                        let k = choose|k: int| 0 <= k < post.len() && (#[trigger] post[k]).enabled && post[k].status == s;
                        if k < i {
                            assert(pre[k] == post[k]);
                        }
                    }
                    if enabled_with(pre, s) {
                        let k = choose|k: int| 0 <= k < pre.len() && (#[trigger] pre[k]).enabled && pre[k].status == s;
                        assert(post[k] == pre[k]);
                    }
                    if m.enabled && m.status == s {
                        assert(post[i as int] == *m);
                    }
                }
            }
            if m.enabled {
                match m.status {
                    HealthStatus::Unhealthy => { any_unhealthy = true; },
                    HealthStatus::Degraded => { any_degraded = true; },
                    HealthStatus::Unknown => { any_unknown = true; },
                    HealthStatus::Healthy => {},
                }
            }
            i = i + 1;
        }
        assert(modules@.take(modules@.len() as int) =~= modules@);
        if any_unhealthy {
            HealthStatus::Unhealthy
        } else if any_degraded {
            HealthStatus::Degraded
        } else if any_unknown {
            HealthStatus::Unknown
        } else {
            HealthStatus::Healthy
        }
    }

    /// A snapshot at `now` of the given system metrics and all module reports.
    pub fn snapshot_at(&self, system: SystemMetrics, now: i64) -> (r: HealthSnapshot)
        ensures
            r.version@ == self.version_of(),
            r.uptime_secs == seconds_between(now as int, self.start_time() as int) as u64,
            r.started_at == self.start_time(),
            r.system == system,
            r.modules@.len() == self.module_list().len(),
            forall|i: int| 0 <= i < r.modules@.len() ==> same_module(#[trigger] r.modules@[i], self.module_list()[i]),
            r.overall_status == overall_status(self.module_list()),
    {
        let modules = self.get_all_modules();
        let overall = HealthManager::calculate_overall_status(modules.as_slice());
        proof {
            assert forall|s: HealthStatus| enabled_with(modules@, s) == enabled_with(self.modules@, s) by {
                if enabled_with(modules@, s) {
                    let k = choose|k: int| 0 <= k < modules@.len() && (#[trigger] modules@[k]).enabled && modules@[k].status == s;
                    assert(same_module(modules@[k], self.modules@[k]));
                }
                if enabled_with(self.modules@, s) {
                    let k = choose|k: int| 0 <= k < self.modules@.len() && (#[trigger] self.modules@[k]).enabled && self.modules@[k].status == s;
                    assert(same_module(modules@[k], self.modules@[k]));
                }
            }
        }
        let uptime = seconds_since(now, self.started_at) as u64;
        HealthSnapshot {
            version: self.version.clone(),
            uptime_secs: uptime,
            started_at: self.started_at,
            system,
            modules,
            overall_status: overall,
        }
    }

    /// Whole seconds since the manager started, at `now`.
    pub fn uptime_at(&self, now: i64) -> (r: u64)
        ensures
            r == seconds_between(now as int, self.start_time() as int) as u64,
    {
        seconds_since(now, self.started_at) as u64
    }

    /// Whole seconds since the manager started.
    pub fn uptime(&self) -> (r: u64)
        ensures
            exists|now: int| in_range(now) && r == seconds_between(now, self.start_time() as int) as u64,
    {
        let now = now_millis();
        self.uptime_at(now)
    }

    /// The daemon version.
    pub fn version(&self) -> (r: &str)
        ensures
            r@ == self.version_of(),
    {
        self.version.as_str()
    }

    /// When the manager started.
    pub fn started_at(&self) -> (r: i64)
        ensures
            r == self.start_time(),
    {
        self.started_at
    }
}

// ---------------------------------------------------------------------------
// Rendering
// ---------------------------------------------------------------------------

/// `format_bytes`: binary units with one decimal (`TB`, `GB`, `MB`, `KB`), plain bytes below 1024.
pub open spec fn format_bytes_spec(bytes: nat) -> Seq<char> {
    if bytes >= 0x100_0000_0000 {
        scaled_fixed(bytes, 40, 1) + "TB"@
    } else if bytes >= 0x4000_0000 {
        scaled_fixed(bytes, 30, 1) + "GB"@
    } else if bytes >= 0x10_0000 {
        scaled_fixed(bytes, 20, 1) + "MB"@
    } else if bytes >= 0x400 {
        scaled_fixed(bytes, 10, 1) + "KB"@
    } else {
        decimal(bytes) + "B"@
    }
}

/// Formats a byte count as a human-readable string.
pub fn format_bytes(bytes: u64) -> (r: String)
    ensures
        r@ == format_bytes_spec(bytes as nat),
{
    if bytes >= 0x100_0000_0000 {
        format_scaled(bytes, 40, 1).concat("TB")
    } else if bytes >= 0x4000_0000 {
        format_scaled(bytes, 30, 1).concat("GB")
    } else if bytes >= 0x10_0000 {
        format_scaled(bytes, 20, 1).concat("MB")
    } else if bytes >= 0x400 {
        format_scaled(bytes, 10, 1).concat("KB")
    } else {
        u64_to_string(bytes).concat("B")
    }
}

/// `format_duration`: days and hours, hours and minutes, minutes, or seconds,
/// whichever is the largest non-zero unit.
pub open spec fn format_duration_spec(secs: nat) -> Seq<char> {
    let days = secs / 86400;
    let hours = (secs % 86400) / 3600;
    let mins = (secs % 3600) / 60;
    if days > 0 {
        decimal(days) + "d "@ + decimal(hours) + "h"@
    } else if hours > 0 {
        decimal(hours) + "h "@ + decimal(mins) + "m"@
    } else if mins > 0 {
        decimal(mins) + "m"@
    } else {
        decimal(secs) + "s"@
    }
}

/// Formats a duration in seconds as a human-readable string.
pub fn format_duration(secs: u64) -> (r: String)
    ensures
        r@ == format_duration_spec(secs as nat),
{
    let days = secs / 86400;
    let hours = (secs % 86400) / 3600;
    let mins = (secs % 3600) / 60;
    if days > 0 {
        u64_to_string(days).concat("d ").concat(u64_to_string(hours).as_str()).concat("h")
    } else if hours > 0 {
        u64_to_string(hours).concat("h ").concat(u64_to_string(mins).as_str()).concat("m")
    } else if mins > 0 {
        u64_to_string(mins).concat("m")
    } else {
        u64_to_string(secs).concat("s")
    }
}

// ---------------------------------------------------------------------------
// Laws
// ---------------------------------------------------------------------------

/// A disabled module never changes the overall status.
pub proof fn law_disabled_module_ignored(modules: Seq<ModuleHealth>, m: ModuleHealth)
    requires
        !m.enabled,
    ensures
        overall_status(modules.push(m)) == overall_status(modules),
{
    let s = modules.push(m);
    assert forall|st: HealthStatus| enabled_with(s, st) == enabled_with(modules, st) by {
        if enabled_with(s, st) {
            let i = choose|i: int| 0 <= i < s.len() && (#[trigger] s[i]).enabled && s[i].status == st;
            assert(i < modules.len());
            assert(s[i] == modules[i]);
        }
        if enabled_with(modules, st) {
            let i = choose|i: int| 0 <= i < modules.len() && (#[trigger] modules[i]).enabled && modules[i].status == st;
            assert(s[i] == modules[i]);
        }
    }
    assert(enabled_with(s, HealthStatus::Unhealthy) == enabled_with(modules, HealthStatus::Unhealthy));
    assert(enabled_with(s, HealthStatus::Degraded) == enabled_with(modules, HealthStatus::Degraded));
    assert(enabled_with(s, HealthStatus::Unknown) == enabled_with(modules, HealthStatus::Unknown));
}

/// The system is healthy exactly when every enabled module is healthy.
pub proof fn law_healthy_iff_all_enabled_healthy(modules: Seq<ModuleHealth>)
    ensures
        overall_status(modules) == HealthStatus::Healthy <==>
            forall|i: int| 0 <= i < modules.len() && (#[trigger] modules[i]).enabled ==> modules[i].status == HealthStatus::Healthy,
{
    if forall|i: int| 0 <= i < modules.len() && (#[trigger] modules[i]).enabled ==> modules[i].status == HealthStatus::Healthy {
        assert(!enabled_with(modules, HealthStatus::Unhealthy));
        assert(!enabled_with(modules, HealthStatus::Degraded));
        assert(!enabled_with(modules, HealthStatus::Unknown));
    } else {
        let i = choose|i: int| !(0 <= i < modules.len() && (#[trigger] modules[i]).enabled ==> modules[i].status == HealthStatus::Healthy);
        assert(modules[i].enabled && modules[i].status != HealthStatus::Healthy);
        match modules[i].status {
            HealthStatus::Unhealthy => assert(enabled_with(modules, HealthStatus::Unhealthy)),
            HealthStatus::Degraded => assert(enabled_with(modules, HealthStatus::Degraded)),
            HealthStatus::Unknown => assert(enabled_with(modules, HealthStatus::Unknown)),
            HealthStatus::Healthy => {},
        }
    }
}

/// One unhealthy enabled module makes the whole system unhealthy.
pub proof fn law_unhealthy_module_dominates(modules: Seq<ModuleHealth>, i: int)
    requires
        0 <= i < modules.len(),
        modules[i].enabled,
        modules[i].status == HealthStatus::Unhealthy,
    ensures
        overall_status(modules) == HealthStatus::Unhealthy,
{
    assert(enabled_with(modules, HealthStatus::Unhealthy));
}

} // verus!
