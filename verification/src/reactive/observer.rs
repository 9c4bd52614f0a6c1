//! Anomaly observer: turns system state into anomalies, suppressing repeats.
//!
//! The caller gathers the state (metrics, container list, module reports); the
//! observer decides which anomalies they show, remembering what it reported
//! recently so that a lasting problem is reported once per cooldown.

use vstd::prelude::*;
use vstd::hash_map::StringHashMap;
use crate::clock::{in_range, now_millis};
use crate::float32::{ge_spec, Float32};
use crate::health::{DiskMetrics, HealthStatus, ModuleHealth, SystemMetrics};
use crate::reactive::types::{default_severity_spec, is_suggestion_for, Anomaly, Severity, SystemEvent};
use crate::server::types::{ContainerInfo, ContainerStatus};
use crate::stamps::StampTable;
use crate::text::{clone_opt_string, owned, str_eq};

verus! {

/// Threshold configuration for anomaly detection.
#[derive(Clone, Copy, Debug)]
pub struct ObserverThresholds {
    /// Disk usage warning threshold (percent).
    pub disk_warning_percent: Float32,
    /// Disk usage critical threshold (percent).
    pub disk_critical_percent: Float32,
    /// Memory usage warning threshold (percent).
    pub memory_warning_percent: Float32,
    /// Memory usage critical threshold (percent).
    pub memory_critical_percent: Float32,
    /// CPU usage warning threshold (percent).
    pub cpu_warning_percent: Float32,
    /// Duration of high CPU to trigger alert (seconds).
    pub cpu_alert_duration_secs: u64,
}

impl Default for ObserverThresholds {
    /// Disk 80% / 95%, memory 85% / 95%, CPU 90% for five minutes.
    fn default() -> (r: ObserverThresholds)
        ensures
            r.disk_warning_percent.bits == 0x42A0_0000,
            r.disk_critical_percent.bits == 0x42BE_0000,
            r.memory_warning_percent.bits == 0x42AA_0000,
            r.memory_critical_percent.bits == 0x42BE_0000,
            r.cpu_warning_percent.bits == 0x42B4_0000,
            r.cpu_alert_duration_secs == 300,
    {
        ObserverThresholds {
            disk_warning_percent: Float32::from_bits(0x42A0_0000),
            disk_critical_percent: Float32::from_bits(0x42BE_0000),
            memory_warning_percent: Float32::from_bits(0x42AA_0000),
            memory_critical_percent: Float32::from_bits(0x42BE_0000),
            cpu_warning_percent: Float32::from_bits(0x42B4_0000),
            cpu_alert_duration_secs: 300,
        }
    }
}

/// Whole seconds from `then` to `now`, zero when `then` is later (as
/// `Instant::duration_since` saturates).
pub open spec fn elapsed_secs(now: int, then: int) -> int {
    if now >= then { (now - then) / 1000 } else { 0 }
}

/// Whether `key` was recorded less than `cooldown_secs` whole seconds before `now`.
pub open spec fn recently(recent: Map<Seq<char>, i64>, key: Seq<char>, cooldown_secs: u64, now: int) -> bool {
    recent.contains_key(key) && elapsed_secs(now, recent[key] as int) < cooldown_secs
}

/// A possible anomaly: its de-duplication key, event and severity.
pub type Candidate = (Seq<char>, SystemEvent, Severity);

/// The candidates that pass de-duplication, in order, and the recorded keys
/// afterwards; a passing candidate is recorded at `now`, so a later candidate
/// with the same key is suppressed while the cooldown lasts.
pub open spec fn admitted(recent: Map<Seq<char>, i64>, cands: Seq<Candidate>, cooldown_secs: u64, now: int)
    -> (Map<Seq<char>, i64>, Seq<Candidate>)
    decreases cands.len(),
{
    if cands.len() == 0 {
        (recent, Seq::empty())
    } else {
        let prev = admitted(recent, cands.drop_last(), cooldown_secs, now);
        let c = cands.last();
        if recently(prev.0, c.0, cooldown_secs, now) {
            prev
        } else {
            (prev.0.insert(c.0, now as i64), prev.1.push(c))
        }
    }
}

/// `a` is a new anomaly for the candidate, detected at `now`.
pub open spec fn anomaly_for(a: Anomaly, c: Candidate, now: int) -> bool {
    &&& a.event == c.1
    &&& a.severity == c.2
    &&& a.detected_at == now
    &&& a.resolved_at is None
    &&& a.resolved_by is None
    &&& is_suggestion_for(c.1, a.suggested_actions@)
    &&& a.id@.len() == 36
}

/// The anomalies are new anomalies for the candidates, one each, in order.
pub open spec fn anomalies_for(r: Seq<Anomaly>, cands: Seq<Candidate>, now: int) -> bool {
    r.len() == cands.len() && forall|i: int| 0 <= i < r.len() ==> anomaly_for(#[trigger] r[i], cands[i], now)
}

/// A possible anomaly, as the observer builds it.
pub struct Detection {
    /// The de-duplication key.
    pub key: String,
    /// The event.
    pub event: SystemEvent,
    /// The severity.
    pub severity: Severity,
}

/// The candidates the detections stand for.
pub open spec fn candidates_of(v: Seq<Detection>) -> Seq<Candidate> {
    v.map_values(|d: Detection| (d.key@, d.event, d.severity))
}

// ---------------------------------------------------------------------------
// What the observer looks for
// ---------------------------------------------------------------------------

/// Memory pressure: critical at or above the critical threshold, with the event's
/// own severity at or above the warning threshold.
pub open spec fn memory_candidates(th: ObserverThresholds, m: SystemMetrics) -> Seq<Candidate> {
    let ev = SystemEvent::MemoryPressure { percent: m.memory_percent, used_bytes: m.memory_used, total_bytes: m.memory_total };
    if ge_spec(m.memory_percent.bits, th.memory_critical_percent.bits) {
        seq![("memory_critical"@, ev, Severity::Critical)]
    } else if ge_spec(m.memory_percent.bits, th.memory_warning_percent.bits) {
        seq![("memory_warning"@, ev, default_severity_spec(ev))]
    } else {
        Seq::empty()
    }
}

/// Low disk space on one mount point, keyed by the mount point.
pub open spec fn disk_candidates(th: ObserverThresholds, d: DiskMetrics) -> Seq<Candidate> {
    let ev = SystemEvent::DiskSpaceLow { mount_point: d.mount_point, percent: d.percent, available_bytes: d.available };
    let key = "disk_"@ + d.mount_point@;
    if ge_spec(d.percent.bits, th.disk_critical_percent.bits) {
        seq![(key, ev, Severity::Critical)]
    } else if ge_spec(d.percent.bits, th.disk_warning_percent.bits) {
        seq![(key, ev, default_severity_spec(ev))]
    } else {
        Seq::empty()
    }
}

/// Low disk space over all mount points, in order.
pub open spec fn disks_candidates(th: ObserverThresholds, ds: Seq<DiskMetrics>) -> Seq<Candidate>
    decreases ds.len(),
{
    if ds.len() == 0 {
        Seq::empty()
    } else {
        disks_candidates(th, ds.drop_last()) + disk_candidates(th, ds.last())
    }
}

/// High CPU: reported once it has lasted the alert duration since it was first seen.
pub open spec fn cpu_candidates(th: ObserverThresholds, m: SystemMetrics, since: Option<i64>, now: int) -> Seq<Candidate> {
    if ge_spec(m.cpu_percent.bits, th.cpu_warning_percent.bits) && since is Some {
        let d = elapsed_secs(now, since->Some_0 as int);
        let ev = SystemEvent::HighCpuUsage { percent: m.cpu_percent, duration_secs: d as u64 };
        if d >= th.cpu_alert_duration_secs { seq![("cpu_high"@, ev, default_severity_spec(ev))] } else { Seq::empty() }
    } else {
        Seq::empty()
    }
}

/// When high CPU was first seen, after this observation.
pub open spec fn cpu_since_after(th: ObserverThresholds, m: SystemMetrics, since: Option<i64>, now: int) -> Option<i64> {
    if ge_spec(m.cpu_percent.bits, th.cpu_warning_percent.bits) {
        match since {
            Some(s) => Some(s),
            None => Some(now as i64),
        }
    } else {
        None
    }
}

/// Everything the system metrics show: memory, then disks, then CPU.
pub open spec fn metric_candidates(th: ObserverThresholds, m: SystemMetrics, since: Option<i64>, now: int) -> Seq<Candidate> {
    memory_candidates(th, m) + disks_candidates(th, m.disks@) + cpu_candidates(th, m, since, now)
}

/// Whether each container name maps to whether its last listing says it runs.
pub open spec fn container_states(list: Seq<ContainerInfo>) -> Map<Seq<char>, bool>
    decreases list.len(),
{
    if list.len() == 0 {
        Map::empty()
    } else {
        container_states(list.drop_last()).insert(list.last().name@, list.last().status == ContainerStatus::Running)
    }
}

/// Whether entry `i` is the last listing of its container's name.
pub open spec fn last_listing(list: Seq<ContainerInfo>, i: int) -> bool {
    forall|j: int| i < j < list.len() ==> (#[trigger] list[j]).name@ != list[i].name@
}

/// A crash of the container at `i`: it was running at the previous check and its
/// last listing now says it is not.
pub open spec fn container_candidate_at(seen: Map<Seq<char>, bool>, list: Seq<ContainerInfo>, i: int) -> Seq<Candidate> {
    let c = list[i];
    let was_running = seen.contains_key(c.name@) && seen[c.name@];
    if last_listing(list, i) && was_running && c.status != ContainerStatus::Running {
        let ev = SystemEvent::ContainerCrashed { name: c.name, exit_code: None };
        seq![("container_crashed_"@ + c.name@, ev, default_severity_spec(ev))]
    } else {
        Seq::empty()
    }
}

/// Crashed containers, in the order of their last listing.
pub open spec fn container_candidates_upto(seen: Map<Seq<char>, bool>, list: Seq<ContainerInfo>, n: int) -> Seq<Candidate>
    decreases n,
{
    if n <= 0 {
        Seq::empty()
    } else {
        container_candidates_upto(seen, list, n - 1) + container_candidate_at(seen, list, n - 1)
    }
}

/// An unhealthy enabled module.
pub open spec fn module_candidate(m: ModuleHealth) -> Seq<Candidate> {
    if m.enabled && m.status == HealthStatus::Unhealthy {
        let ev = SystemEvent::ModuleUnhealthy { module: m.name, message: m.message };
        seq![("module_unhealthy_"@ + m.name@, ev, default_severity_spec(ev))]
    } else {
        Seq::empty()
    }
}

/// Unhealthy enabled modules, in order.
pub open spec fn module_candidates(ms: Seq<ModuleHealth>) -> Seq<Candidate>
    decreases ms.len(),
{
    if ms.len() == 0 {
        Seq::empty()
    } else {
        module_candidates(ms.drop_last()) + module_candidate(ms.last())
    }
}

// ---------------------------------------------------------------------------
// Observer state
// ---------------------------------------------------------------------------

/// State tracked across observation cycles.
pub struct ObserverState {
    /// Container states from last check (name -> running).
    last_container_states: StringHashMap<bool>,
    /// When CPU usage was first seen above the threshold.
    cpu_high_since: Option<i64>,
    /// Services that were unreachable, with when.
    unreachable_services: StampTable,
    /// Recently detected anomaly keys, with when.
    recent_anomalies: StampTable,
}

impl ObserverState {
    /// The recently detected keys.
    pub closed spec fn recent(self) -> Map<Seq<char>, i64> {
        self.recent_anomalies@
    }

    /// The services recorded as unreachable.
    pub closed spec fn unreachable(self) -> Map<Seq<char>, i64> {
        self.unreachable_services@
    }

    /// When high CPU was first seen.
    pub closed spec fn cpu_since(self) -> Option<i64> {
        self.cpu_high_since
    }

    /// Which containers were running at the last check.
    pub closed spec fn containers_seen(self) -> Map<Seq<char>, bool> {
        self.last_container_states@
    }

    /// An empty state.
    pub fn new() -> (r: ObserverState)
        ensures
            r.recent() == Map::<Seq<char>, i64>::empty(),
            r.unreachable() == Map::<Seq<char>, i64>::empty(),
            r.cpu_since() is None,
            r.containers_seen() == Map::<Seq<char>, bool>::empty(),
    {
        ObserverState {
            last_container_states: StringHashMap::new(),
            cpu_high_since: None,
            unreachable_services: StampTable::new(),
            recent_anomalies: StampTable::new(),
        }
    }

    /// Whether `key` was detected less than `cooldown_secs` seconds before `now`.
    pub fn recently_detected_at(&self, key: &str, cooldown_secs: u64, now: i64) -> (r: bool)
        ensures
            r == recently(self.recent(), key@, cooldown_secs, now as int),
    {
        match self.recent_anomalies.get(key) {
            Some(last) => {
                let elapsed: u64 = if now >= last { ((now as i128 - last as i128) / 1000) as u64 } else { 0 };
                elapsed < cooldown_secs
            },
            None => false,
        }
    }

    /// Whether `key` was detected less than `cooldown_secs` seconds ago.
    pub fn recently_detected(&self, key: &str, cooldown_secs: u64) -> (r: bool)
        ensures
            exists|now: int| in_range(now) && r == recently(self.recent(), key@, cooldown_secs, now),
    {
        let now = now_millis();
        self.recently_detected_at(key, cooldown_secs, now)
    }

    /// Records that `key` was detected at `now`.
    pub fn record_detection_at(&mut self, key: &str, now: i64)
        ensures
            final(self).recent() == old(self).recent().insert(key@, now),
            final(self).unreachable() == old(self).unreachable(),
            final(self).cpu_since() == old(self).cpu_since(),
            final(self).containers_seen() == old(self).containers_seen(),
    {
        self.recent_anomalies.insert(key, now);
    }

    /// Records that `key` was detected now.
    pub fn record_detection(&mut self, key: &str)
        ensures
            exists|now: int| in_range(now) && final(self).recent() == #[trigger] old(self).recent().insert(key@, now as i64),
            final(self).unreachable() == old(self).unreachable(),
            final(self).cpu_since() == old(self).cpu_since(),
            final(self).containers_seen() == old(self).containers_seen(),
    {
        let now = now_millis();
        self.record_detection_at(key, now);
        assert(self.recent() == old(self).recent().insert(key@, (now as int) as i64));
    }

    /// Forgets detections and unreachable services older than `max_age_secs` at `now`.
    pub fn cleanup_at(&mut self, max_age_secs: u64, now: i64)
        ensures
            final(self).recent() == old(self).recent().restrict(
                old(self).recent().dom().filter(|k: Seq<char>| elapsed_secs(now as int, old(self).recent()[k] as int) < max_age_secs),
            ),
            final(self).unreachable() == old(self).unreachable().restrict(
                old(self).unreachable().dom().filter(|k: Seq<char>| elapsed_secs(now as int, old(self).unreachable()[k] as int) < max_age_secs),
            ),
            final(self).cpu_since() == old(self).cpu_since(),
            final(self).containers_seen() == old(self).containers_seen(),
    {
        let ghost r0 = self.recent_anomalies@;
        let ghost u0 = self.unreachable_services@;
        if max_age_secs == 0 {
            self.recent_anomalies.clear();
            self.unreachable_services.clear();
            assert(Map::<Seq<char>, i64>::empty() =~= r0.restrict(r0.dom().filter(|k: Seq<char>| elapsed_secs(now as int, r0[k] as int) < max_age_secs)));
            assert(Map::<Seq<char>, i64>::empty() =~= u0.restrict(u0.dom().filter(|k: Seq<char>| elapsed_secs(now as int, u0[k] as int) < max_age_secs)));
        } else {
            let lo: i128 = now as i128 - 1000 * (max_age_secs as i128) + 1;
            let min: i64 = if lo < i64::MIN as i128 { i64::MIN } else { lo as i64 };
            assert forall|t: i64| (min <= t) == (elapsed_secs(now as int, t as int) < max_age_secs) by {
                if now >= t {
                    assert(((now - t) / 1000 < max_age_secs) == (now - t < 1000 * max_age_secs));
                }
            }
            self.recent_anomalies.retain_since(min);
            self.unreachable_services.retain_since(min);
            assert(r0.dom().filter(|k: Seq<char>| min <= r0[k]) =~= r0.dom().filter(|k: Seq<char>| elapsed_secs(now as int, r0[k] as int) < max_age_secs));
            assert(u0.dom().filter(|k: Seq<char>| min <= u0[k]) =~= u0.dom().filter(|k: Seq<char>| elapsed_secs(now as int, u0[k] as int) < max_age_secs));
        }
    }

    /// Records the detections that pass de-duplication at `now` and returns a new
    /// anomaly for each.
    pub fn accept_new(&mut self, cands: &Vec<Detection>, cooldown_secs: u64, now: i64) -> (r: Vec<Anomaly>)
        ensures
            final(self).recent() == admitted(old(self).recent(), candidates_of(cands@), cooldown_secs, now as int).0,
            anomalies_for(r@, admitted(old(self).recent(), candidates_of(cands@), cooldown_secs, now as int).1, now as int),
            final(self).unreachable() == old(self).unreachable(),
            final(self).cpu_since() == old(self).cpu_since(),
            final(self).containers_seen() == old(self).containers_seen(),
    {
        let ghost r0 = self.recent();
        let ghost cs = candidates_of(cands@);
        let mut out: Vec<Anomaly> = Vec::new();
        let mut i: usize = 0;
        while i < cands.len()
            invariant
                i <= cands.len(),
                cs == candidates_of(cands@),
                self.recent() == admitted(r0, cs.take(i as int), cooldown_secs, now as int).0,
                anomalies_for(out@, admitted(r0, cs.take(i as int), cooldown_secs, now as int).1, now as int),
                self.unreachable() == old(self).unreachable(),
                self.cpu_since() == old(self).cpu_since(),
                self.containers_seen() == old(self).containers_seen(),
            decreases cands.len() - i,
        {
            let d = &cands[i];
            proof {
                assert(cs.take(i + 1).drop_last() =~= cs.take(i as int));
                assert(cs.take(i + 1).last() == (d.key@, d.event, d.severity));
            }
            if !self.recently_detected_at(d.key.as_str(), cooldown_secs, now) {
                self.record_detection_at(d.key.as_str(), now);
                let a = Anomaly::create(crate::clock::new_uuid(), d.event.duplicate(), d.severity, now);
                let ghost pre = out@;
                out.push(a);
                proof {
                    let adm = admitted(r0, cs.take(i + 1), cooldown_secs, now as int).1;
                    assert forall|k: int| 0 <= k < out@.len() implies anomaly_for(#[trigger] out@[k], adm[k], now as int) by {
                        if k < pre.len() {
                            assert(out@[k] == pre[k]);
                        }
                    }
                }
            }
            i = i + 1;
        }
        assert(cs.take(cands@.len() as int) =~= cs);
        out
    }
}

impl Default for ObserverState {
    fn default() -> (r: ObserverState)
        ensures
            r.recent() == Map::<Seq<char>, i64>::empty(),
            r.unreachable() == Map::<Seq<char>, i64>::empty(),
            r.cpu_since() is None,
            r.containers_seen() == Map::<Seq<char>, bool>::empty(),
    {
        ObserverState::new()
    }
}

/// A detection for an event, keyed by `key`.
fn detection(key: String, event: SystemEvent, severity: Severity) -> (r: Detection)
    ensures
        r.key == key,
        r.event == event,
        r.severity == severity,
{
    Detection { key, event, severity }
}

// ---------------------------------------------------------------------------
// The observer
// ---------------------------------------------------------------------------

/// The anomaly observer.
pub struct AnomalyObserver {
    /// Detection thresholds.
    thresholds: ObserverThresholds,
    /// Internal state.
    state: ObserverState,
    /// Cooldown for duplicate anomaly detection (seconds).
    duplicate_cooldown_secs: u64,
}

impl AnomalyObserver {
    /// The detection thresholds.
    pub closed spec fn thresholds_of(self) -> ObserverThresholds {
        self.thresholds
    }

    /// The de-duplication state.
    pub closed spec fn state_of(self) -> ObserverState {
        self.state
    }

    /// The de-duplication cooldown in seconds.
    pub closed spec fn cooldown(self) -> u64 {
        self.duplicate_cooldown_secs
    }

    /// An observer with the given thresholds, no history and a five-minute cooldown.
    pub fn new(thresholds: ObserverThresholds) -> (r: AnomalyObserver)
        ensures
            r.thresholds_of() == thresholds,
            r.cooldown() == 300,
            r.state_of().recent() == Map::<Seq<char>, i64>::empty(),
            r.state_of().unreachable() == Map::<Seq<char>, i64>::empty(),
            r.state_of().cpu_since() is None,
            r.state_of().containers_seen() == Map::<Seq<char>, bool>::empty(),
    {
        AnomalyObserver { thresholds, state: ObserverState::new(), duplicate_cooldown_secs: 300 }
    }

    /// Sets the de-duplication cooldown.
    pub fn set_duplicate_cooldown(&mut self, secs: u64)
        ensures
            final(self).cooldown() == secs,
            final(self).thresholds_of() == old(self).thresholds_of(),
            final(self).state_of() == old(self).state_of(),
    {
        self.duplicate_cooldown_secs = secs;
    }

    /// The detection thresholds.
    pub fn thresholds(&self) -> (r: &ObserverThresholds)
        ensures
            *r == self.thresholds_of(),
    {
        &self.thresholds
    }

    /// Replaces the detection thresholds.
    pub fn set_thresholds(&mut self, thresholds: ObserverThresholds)
        ensures
            final(self).thresholds_of() == thresholds,
            final(self).cooldown() == old(self).cooldown(),
            final(self).state_of() == old(self).state_of(),
    {
        self.thresholds = thresholds;
    }

    /// What the system metrics show at `now`; updates when high CPU was first seen.
    fn check_system_metrics(&mut self, metrics: &SystemMetrics, now: i64, out: &mut Vec<Detection>)
        ensures
            candidates_of(final(out)@) == candidates_of(old(out)@)
                + metric_candidates(old(self).thresholds_of(), *metrics, old(self).state_of().cpu_since(), now as int),
            final(self).state_of().cpu_since() == cpu_since_after(old(self).thresholds_of(), *metrics, old(self).state_of().cpu_since(), now as int),
            final(self).state_of().recent() == old(self).state_of().recent(),
            final(self).state_of().unreachable() == old(self).state_of().unreachable(),
            final(self).state_of().containers_seen() == old(self).state_of().containers_seen(),
            final(self).thresholds_of() == old(self).thresholds_of(),
            final(self).cooldown() == old(self).cooldown(),
    {
        let th = self.thresholds;
        let ghost out0 = candidates_of(out@);
        // Memory.
        let mem_event = SystemEvent::MemoryPressure {
            percent: metrics.memory_percent,
            used_bytes: metrics.memory_used,
            total_bytes: metrics.memory_total,
        };
        if metrics.memory_percent.ge(&th.memory_critical_percent) {
            out.push(detection(owned("memory_critical"), mem_event, Severity::Critical));
        } else if metrics.memory_percent.ge(&th.memory_warning_percent) {
            let sev = mem_event.default_severity();
            out.push(detection(owned("memory_warning"), mem_event, sev));
        }
        assert(candidates_of(out@) =~= out0 + memory_candidates(th, *metrics));
        // Disks.
        let ghost out1 = candidates_of(out@);
        let mut i: usize = 0;
        while i < metrics.disks.len()
            invariant
                i <= metrics.disks.len(),
                th == self.thresholds_of(),
                candidates_of(out@) == out1 + disks_candidates(th, metrics.disks@.take(i as int)),
            decreases metrics.disks.len() - i,
        {
            let disk = &metrics.disks[i];
            let ghost before = candidates_of(out@);
            proof {
                assert(metrics.disks@.take(i + 1).drop_last() =~= metrics.disks@.take(i as int));
            }
            let key = owned("disk_").concat(disk.mount_point.as_str());
            let event = SystemEvent::DiskSpaceLow {
                mount_point: disk.mount_point.clone(),
                percent: disk.percent,
                available_bytes: disk.available,
            };
            if disk.percent.ge(&th.disk_critical_percent) {
                out.push(detection(key, event, Severity::Critical));
            } else if disk.percent.ge(&th.disk_warning_percent) {
                let sev = event.default_severity();
                out.push(detection(key, event, sev));
            }
            assert(candidates_of(out@) =~= before + disk_candidates(th, metrics.disks@[i as int]));
            i = i + 1;
            assert(candidates_of(out@) =~= out1 + disks_candidates(th, metrics.disks@.take(i as int)));
        }
        assert(metrics.disks@.take(metrics.disks@.len() as int) =~= metrics.disks@);
        // CPU.
        let ghost out2 = candidates_of(out@);
        let ghost since0 = self.state.cpu_high_since;
        if metrics.cpu_percent.ge(&th.cpu_warning_percent) {
            match self.state.cpu_high_since {
                Some(since) => {
                    let duration: u64 = if now >= since { ((now as i128 - since as i128) / 1000) as u64 } else { 0 };
                    if duration >= th.cpu_alert_duration_secs {
                        let event = SystemEvent::HighCpuUsage { percent: metrics.cpu_percent, duration_secs: duration };
                        let sev = event.default_severity();
                        out.push(detection(owned("cpu_high"), event, sev));
                    }
                },
                None => {
                    self.state.cpu_high_since = Some(now);
                },
            }
        } else {
            self.state.cpu_high_since = None;
        }
        assert(candidates_of(out@) =~= out2 + cpu_candidates(th, *metrics, since0, now as int));
        assert(candidates_of(out@) =~= out0 + metric_candidates(th, *metrics, since0, now as int));
    }

    /// Crashed containers in the listing; remembers which containers run now.
    fn check_containers(&mut self, list: &Vec<ContainerInfo>, out: &mut Vec<Detection>)
        ensures
            candidates_of(final(out)@) == candidates_of(old(out)@)
                + container_candidates_upto(old(self).state_of().containers_seen(), list@, list@.len() as int),
            final(self).state_of().containers_seen() == container_states(list@),
            final(self).state_of().recent() == old(self).state_of().recent(),
            final(self).state_of().unreachable() == old(self).state_of().unreachable(),
            final(self).state_of().cpu_since() == old(self).state_of().cpu_since(),
            final(self).thresholds_of() == old(self).thresholds_of(),
            final(self).cooldown() == old(self).cooldown(),
    {
        let ghost seen = self.state.last_container_states@;
        let ghost out0 = candidates_of(out@);
        // Current states, the last listing of a name winning.
        let mut current: StringHashMap<bool> = StringHashMap::new();
        let mut i: usize = 0;
        while i < list.len()
            invariant
                i <= list.len(),
                current@ == container_states(list@.take(i as int)),
            decreases list.len() - i,
        {
            proof {
                assert(list@.take(i + 1).drop_last() =~= list@.take(i as int));
            }
            current.insert(list[i].name.clone(), list[i].status.is_running());
            i = i + 1;
        }
        assert(list@.take(list@.len() as int) =~= list@);
        // Crashes: running before, not running now.
        let mut i: usize = 0;
        while i < list.len()
            invariant
                i <= list.len(),
                seen == self.state.last_container_states@,
                candidates_of(out@) == out0 + container_candidates_upto(seen, list@, i as int),
            decreases list.len() - i,
        {
            let c = &list[i];
            let ghost before = candidates_of(out@);
            let mut last = true;
            let mut j: usize = i + 1;
            while j < list.len()
                invariant
                    i < j <= list.len(),
                    c.name@ == list@[i as int].name@,
                    last == forall|k: int| i < k < j ==> (#[trigger] list@[k]).name@ != list@[i as int].name@,
                decreases list.len() - j,
            {
                if str_eq(list[j].name.as_str(), c.name.as_str()) {
                    last = false;
                }
                j = j + 1;
            }
            let was_running = match self.state.last_container_states.get(c.name.as_str()) {
                Some(b) => *b,
                None => false,
            };
            if last && was_running && !c.status.is_running() {
                let event = SystemEvent::ContainerCrashed { name: c.name.clone(), exit_code: None };
                let sev = event.default_severity();
                out.push(detection(owned("container_crashed_").concat(c.name.as_str()), event, sev));
            }
            assert(candidates_of(out@) =~= before + container_candidate_at(seen, list@, i as int));
            i = i + 1;
        }
        self.state.last_container_states = current;
    }

    /// Unhealthy enabled modules.
    fn check_modules(&self, modules: &Vec<ModuleHealth>, out: &mut Vec<Detection>)
        ensures
            candidates_of(final(out)@) == candidates_of(old(out)@) + module_candidates(modules@),
    {
        let ghost out0 = candidates_of(out@);
        let mut i: usize = 0;
        while i < modules.len()
            invariant
                i <= modules.len(),
                candidates_of(out@) == out0 + module_candidates(modules@.take(i as int)),
            decreases modules.len() - i,
        {
            let m = &modules[i];
            let ghost before = candidates_of(out@);
            proof {
                assert(modules@.take(i + 1).drop_last() =~= modules@.take(i as int));
            }
            if m.enabled && m.status == HealthStatus::Unhealthy {
                let event = SystemEvent::ModuleUnhealthy { module: m.name.clone(), message: clone_opt_string(&m.message) };
                let sev = event.default_severity();
                out.push(detection(owned("module_unhealthy_").concat(m.name.as_str()), event, sev));
            }
            assert(candidates_of(out@) =~= before + module_candidate(modules@[i as int]));
            i = i + 1;
        }
        assert(modules@.take(modules@.len() as int) =~= modules@);
    }

    /// One observation cycle at `now`: forgets detections older than twice the
    /// cooldown, then reports what the metrics, the container listing (when the
    /// containers could be listed) and the module reports show, each anomaly at
    /// most once per cooldown.
    pub fn observe_at(
        &mut self,
        metrics: &SystemMetrics,
        containers: Option<&Vec<ContainerInfo>>,
        modules: &Vec<ModuleHealth>,
        now: i64,
    ) -> (r: Vec<Anomaly>)
        requires
            old(self).cooldown() <= u64::MAX / 2,
        ensures
            ({
                let th = old(self).thresholds_of();
                let cd = old(self).cooldown();
                let s0 = old(self).state_of();
                let cleaned = s0.recent().restrict(
                    s0.recent().dom().filter(|k: Seq<char>| elapsed_secs(now as int, s0.recent()[k] as int) < 2 * cd),
                );
                let cands = metric_candidates(th, *metrics, s0.cpu_since(), now as int)
                    + match containers {
                        Some(l) => container_candidates_upto(s0.containers_seen(), l@, l@.len() as int),
                        None => Seq::empty(),
                    }
                    + module_candidates(modules@);
                &&& final(self).state_of().recent() == admitted(cleaned, cands, cd, now as int).0
                &&& anomalies_for(r@, admitted(cleaned, cands, cd, now as int).1, now as int)
                &&& final(self).state_of().cpu_since() == cpu_since_after(th, *metrics, s0.cpu_since(), now as int)
                &&& final(self).state_of().containers_seen() == match containers {
                    Some(l) => container_states(l@),
                    None => s0.containers_seen(),
                }
            }),
            final(self).thresholds_of() == old(self).thresholds_of(),
            final(self).cooldown() == old(self).cooldown(),
    {
        let max_age = self.duplicate_cooldown_secs * 2;
        self.state.cleanup_at(max_age, now);
        let mut cands: Vec<Detection> = Vec::new();
        self.check_system_metrics(metrics, now, &mut cands);
        match containers {
            Some(list) => {
                self.check_containers(list, &mut cands);
            },
            None => {},
        }
        self.check_modules(modules, &mut cands);
        assert(candidates_of(Seq::<Detection>::empty()) =~= Seq::<Candidate>::empty());
        let cooldown = self.duplicate_cooldown_secs;
        self.state.accept_new(&cands, cooldown, now)
    }

    /// Reports an unreachable service at `now`, unless it was reported within the cooldown.
    pub fn record_service_unreachable_at(&mut self, service: &str, url: &str, error: &str, now: i64) -> (r: Option<Anomaly>)
        ensures
            old(self).unreachable_outcome(*final(self), service@, url@, error@, now as int, r),
            final(self).thresholds_of() == old(self).thresholds_of(),
            final(self).cooldown() == old(self).cooldown(),
    {
        let key = owned("service_unreachable_").concat(service);
        if !self.state.recently_detected_at(key.as_str(), self.duplicate_cooldown_secs, now) {
            self.state.record_detection_at(key.as_str(), now);
            self.state.unreachable_services.insert(service, now);
            let event = SystemEvent::ServiceUnreachable { service: owned(service), url: owned(url), error: owned(error) };
            let sev = event.default_severity();
            Some(Anomaly::create(crate::clock::new_uuid(), event, sev, now))
        } else {
            None
        }
    }

    /// Reports an unreachable service now.
    pub fn record_service_unreachable(&mut self, service: &str, url: &str, error: &str) -> (r: Option<Anomaly>)
        ensures
            exists|now: int| in_range(now) && #[trigger] old(self).unreachable_outcome(*final(self), service@, url@, error@, now, r),
            final(self).thresholds_of() == old(self).thresholds_of(),
            final(self).cooldown() == old(self).cooldown(),
    {
        let now = now_millis();
        let r = self.record_service_unreachable_at(service, url, error, now);
        assert(old(self).unreachable_outcome(*self, service@, url@, error@, now as int, r));
        r
    }

    /// What `record_service_unreachable_at` does at `now`.
    pub open spec fn unreachable_outcome(
        self,
        after: AnomalyObserver,
        service: Seq<char>,
        url: Seq<char>,
        error: Seq<char>,
        now: int,
        r: Option<Anomaly>,
    ) -> bool {
        let key = "service_unreachable_"@ + service;
        let s0 = self.state_of();
        if recently(s0.recent(), key, self.cooldown(), now) {
            r is None && after.state_of() == s0
        } else {
            &&& r matches Some(a) && a.event matches SystemEvent::ServiceUnreachable { service: sv, url: u, error: e }
                && sv@ == service && u@ == url && e@ == error
                && anomaly_for(a, (key, a.event, default_severity_spec(a.event)), now)
            &&& after.state_of().recent() == s0.recent().insert(key, now as i64)
            &&& after.state_of().unreachable() == s0.unreachable().insert(service, now as i64)
            &&& after.state_of().cpu_since() == s0.cpu_since()
            &&& after.state_of().containers_seen() == s0.containers_seen()
        }
    }

    /// Reports a backup failure at `now`, unless one was reported within the cooldown.
    pub fn record_backup_failed_at(&mut self, error: &str, now: i64) -> (r: Option<Anomaly>)
        ensures
            old(self).backup_failed_outcome(*final(self), error@, now as int, r),
            final(self).thresholds_of() == old(self).thresholds_of(),
            final(self).cooldown() == old(self).cooldown(),
    {
        let key = "backup_failed";
        if !self.state.recently_detected_at(key, self.duplicate_cooldown_secs, now) {
            self.state.record_detection_at(key, now);
            let event = SystemEvent::BackupFailed { error: owned(error) };
            let sev = event.default_severity();
            Some(Anomaly::create(crate::clock::new_uuid(), event, sev, now))
        } else {
            None
        }
    }

    /// Reports a backup failure now.
    pub fn record_backup_failed(&mut self, error: &str) -> (r: Option<Anomaly>)
        ensures
            exists|now: int| in_range(now) && #[trigger] old(self).backup_failed_outcome(*final(self), error@, now, r),
            final(self).thresholds_of() == old(self).thresholds_of(),
            final(self).cooldown() == old(self).cooldown(),
    {
        let now = now_millis();
        let r = self.record_backup_failed_at(error, now);
        assert(old(self).backup_failed_outcome(*self, error@, now as int, r));
        r
    }

    /// What `record_backup_failed_at` does at `now`.
    pub open spec fn backup_failed_outcome(self, after: AnomalyObserver, error: Seq<char>, now: int, r: Option<Anomaly>) -> bool {
        let key = "backup_failed"@;
        let s0 = self.state_of();
        if recently(s0.recent(), key, self.cooldown(), now) {
            r is None && after.state_of() == s0
        } else {
            &&& r matches Some(a) && a.event matches SystemEvent::BackupFailed { error: e } && e@ == error
                && anomaly_for(a, (key, a.event, default_severity_spec(a.event)), now)
            &&& after.state_of().recent() == s0.recent().insert(key, now as i64)
            &&& after.state_of().unreachable() == s0.unreachable()
            &&& after.state_of().cpu_since() == s0.cpu_since()
            &&& after.state_of().containers_seen() == s0.containers_seen()
        }
    }

    /// Reports an available update at `now`, at most once a day per version.
    pub fn record_update_available_at(&mut self, current: &str, latest: &str, now: i64) -> (r: Option<Anomaly>)
        ensures
            old(self).update_outcome(*final(self), current@, latest@, now as int, r),
            final(self).thresholds_of() == old(self).thresholds_of(),
            final(self).cooldown() == old(self).cooldown(),
    {
        let key = owned("update_available_").concat(latest);
        if !self.state.recently_detected_at(key.as_str(), 86400, now) {
            self.state.record_detection_at(key.as_str(), now);
            let event = SystemEvent::UpdateAvailable { current: owned(current), latest: owned(latest) };
            let sev = event.default_severity();
            Some(Anomaly::create(crate::clock::new_uuid(), event, sev, now))
        } else {
            None
        }
    }

    /// Reports an available update now.
    pub fn record_update_available(&mut self, current: &str, latest: &str) -> (r: Option<Anomaly>)
        ensures
            exists|now: int| in_range(now) && #[trigger] old(self).update_outcome(*final(self), current@, latest@, now, r),
            final(self).thresholds_of() == old(self).thresholds_of(),
            final(self).cooldown() == old(self).cooldown(),
    {
        let now = now_millis();
        let r = self.record_update_available_at(current, latest, now);
        assert(old(self).update_outcome(*self, current@, latest@, now as int, r));
        r
    }

    /// What `record_update_available_at` does at `now`.
    pub open spec fn update_outcome(self, after: AnomalyObserver, current: Seq<char>, latest: Seq<char>, now: int, r: Option<Anomaly>) -> bool {
        let key = "update_available_"@ + latest;
        let s0 = self.state_of();
        if recently(s0.recent(), key, 86400, now) {
            r is None && after.state_of() == s0
        } else {
            &&& r matches Some(a) && a.event matches SystemEvent::UpdateAvailable { current: c, latest: l }
                && c@ == current && l@ == latest
                && anomaly_for(a, (key, a.event, default_severity_spec(a.event)), now)
            &&& after.state_of().recent() == s0.recent().insert(key, now as i64)
            &&& after.state_of().unreachable() == s0.unreachable()
            &&& after.state_of().cpu_since() == s0.cpu_since()
            &&& after.state_of().containers_seen() == s0.containers_seen()
        }
    }
}

// ---------------------------------------------------------------------------
// Laws
// ---------------------------------------------------------------------------

/// A key recorded at `now` counts as recently detected at every later instant
/// less than `cooldown_secs` whole seconds after.
pub proof fn law_recorded_key_suppressed(recent: Map<Seq<char>, i64>, key: Seq<char>, now: int, later: int, cooldown_secs: u64)
    requires
        i64::MIN <= now <= i64::MAX,
        now <= later,
        elapsed_secs(later, now) < cooldown_secs,
    ensures
        recently(recent.insert(key, now as i64), key, cooldown_secs, later),
{
}

/// An unreachable service reported once is not reported again while the
/// observer's cooldown lasts.
pub proof fn law_unreachable_reported_once(
    o1: AnomalyObserver,
    o2: AnomalyObserver,
    o3: AnomalyObserver,
    service: Seq<char>,
    url1: Seq<char>,
    error1: Seq<char>,
    url2: Seq<char>,
    error2: Seq<char>,
    now1: int,
    now2: int,
    r1: Option<Anomaly>,
    r2: Option<Anomaly>,
)
    requires
        i64::MIN <= now1 <= i64::MAX,
        o1.unreachable_outcome(o2, service, url1, error1, now1, r1),
        r1 is Some,
        o2.cooldown() == o1.cooldown(),
        o2.unreachable_outcome(o3, service, url2, error2, now2, r2),
        now1 <= now2,
        elapsed_secs(now2, now1) < o1.cooldown(),
    ensures
        r2 is None,
{
    let key = "service_unreachable_"@ + service;
    if recently(o1.state_of().recent(), key, o1.cooldown(), now1) {
    } else {
        law_recorded_key_suppressed(o1.state_of().recent(), key, now1, now2, o1.cooldown());
    }
}


/// A crash is reported for a container only when the previous listing recorded it
/// as running, and its listing now says it is not running; a container the
/// previous listing did not hold never yields a crash.
pub proof fn law_crash_needs_prior_running(seen: Map<Seq<char>, bool>, list: Seq<ContainerInfo>, n: int, k: int)
    requires
        0 <= k < container_candidates_upto(seen, list, n).len(),
        n <= list.len(),
    ensures
        container_candidates_upto(seen, list, n)[k].1 matches SystemEvent::ContainerCrashed { name, .. }
            && seen.contains_key(name@) && seen[name@]
            && exists|i: int| 0 <= i < n && i < list.len() && (#[trigger] list[i]).name == name
                && list[i].status != ContainerStatus::Running,
    decreases n,
{
    if n > 0 {
        let before = container_candidates_upto(seen, list, n - 1);
        let here = container_candidate_at(seen, list, n - 1);
        assert(container_candidates_upto(seen, list, n) == before + here);
        if k < before.len() {
            law_crash_needs_prior_running(seen, list, n - 1, k);
            assert(container_candidates_upto(seen, list, n)[k] == before[k]);
        } else {
            assert(container_candidates_upto(seen, list, n)[k] == here[k - before.len()]);
            assert(here.len() > 0);
            assert(list[n - 1].name == list[n - 1].name);
        }
    }
}

/// With no previous listing, no container is reported as crashed, whatever the
/// listing holds.
pub proof fn law_no_crash_without_history(list: Seq<ContainerInfo>, n: int)
    requires
        n <= list.len(),
    ensures
        container_candidates_upto(Map::empty(), list, n).len() == 0,
{
    if container_candidates_upto(Map::empty(), list, n).len() > 0 {
        law_crash_needs_prior_running(Map::empty(), list, n, 0);
    }
}

} // verus!
