//! The bot's answers about maintenance and the reactive engine.

use vstd::prelude::*;
use crate::clock::{
    format_stamp_clock, format_stamp_minute, format_stamp_month_minute, in_range, stamp_clock, stamp_minute,
    stamp_month_minute,
};
use crate::maint::backup::{format_backup_size, format_backup_size_spec};
use crate::maint::logs::RotationResult;
use crate::maint::manager::{format_job, format_job_spec};
use crate::maint::types::{BackupInfo, MaintStatus, ScheduledJob, UpdateInfo};
use crate::reactive::engine::ReactiveStatus;
use crate::reactive::types::{
    action_description, description_spec, event_type_spec, Action, ActionStatus, Anomaly, Severity,
};
use crate::telegram::assistant::{short_id, short_id_ok};
use crate::telegram::reply::{append_lines, capped, lines_of, listing, note_more, under_heading};
use crate::telegram::services::{failure, failure_text};
use crate::text::{decimal, owned, prefix_bytes, u64_to_string, views};

verus! {

/// The most items the backup and anomaly lists show.
pub const ITEMS_SHOWN: usize = 10;

// ---------------------------------------------------------------------------
// Maintenance
// ---------------------------------------------------------------------------

/// An optional instant as `%Y-%m-%d %H:%M`, or `never`.
pub open spec fn minute_or_never(t: Option<i64>) -> Seq<char> {
    match t {
        Some(ms) => stamp_minute(ms as int),
        None => "never"@,
    }
}

fn minute_or_never_text(t: Option<i64>) -> (r: String)
    requires
        t matches Some(ms) ==> in_range(ms as int),
    ensures
        r@ == minute_or_never(t),
{
    match t {
        Some(ms) => format_stamp_minute(ms),
        None => owned("never"),
    }
}

/// The lines of the maintenance status answer after its heading.
pub open spec fn maint_status_lines(s: MaintStatus) -> Seq<Seq<char>> {
    seq!["  Version: "@ + s.current_version@, "  Scheduled Jobs: "@ + decimal(s.scheduled_jobs as nat)]
        + match s.available_update {
        Some(u) => seq!["  Update Available: "@ + u@],
        None => Seq::empty(),
    } + seq![
        "  Last Backup: "@ + minute_or_never(s.last_backup),
        "  Last Update Check: "@ + minute_or_never(s.last_update_check),
        "  Backups: "@ + decimal(s.backups_retained as nat) + " ("@ + format_backup_size_spec(s.total_backup_size as nat)
            + " total)"@,
    ]
}

/// The `/maint status` answer.
pub open spec fn maint_status_text(s: MaintStatus) -> Seq<char> {
    listing("Maintenance Status:"@, maint_status_lines(s))
}

/// Formats the `/maint status` answer.
pub fn format_maint_status(s: &MaintStatus) -> (r: String)
    requires
        s.last_backup matches Some(ms) ==> in_range(ms as int),
        s.last_update_check matches Some(ms) ==> in_range(ms as int),
    ensures
        r@ == maint_status_text(*s),
{
    let mut body: Vec<String> = Vec::new();
    body.push(owned("  Version: ").concat(s.current_version.as_str()));
    body.push(owned("  Scheduled Jobs: ").concat(u64_to_string(s.scheduled_jobs as u64).as_str()));
    match &s.available_update {
        Some(u) => body.push(owned("  Update Available: ").concat(u.as_str())),
        None => {},
    }
    let ghost head = views(body@);
    body.push(owned("  Last Backup: ").concat(minute_or_never_text(s.last_backup).as_str()));
    body.push(owned("  Last Update Check: ").concat(minute_or_never_text(s.last_update_check).as_str()));
    body.push(
        owned("  Backups: ").concat(u64_to_string(s.backups_retained as u64).as_str()).concat(" (").concat(
            format_backup_size(s.total_backup_size).as_str(),
        ).concat(" total)"),
    );
    assert(views(body@) =~= maint_status_lines(*s));
    under_heading("Maintenance Status:", body)
}

/// Whether the backups list can show this backup.
pub open spec fn backup_line_ok(b: BackupInfo) -> bool {
    in_range(b.created_at as int)
}

/// A backup's line: name, size and when it was made.
pub open spec fn backup_line_text(b: BackupInfo) -> Seq<char> {
    "  "@ + b.name@ + " ("@ + format_backup_size_spec(b.size as nat) + ") - "@ + stamp_minute(b.created_at as int)
}

fn backup_line(b: &BackupInfo) -> (r: String)
    requires
        backup_line_ok(*b),
    ensures
        r@ == backup_line_text(*b),
{
    owned("  ").concat(b.name.as_str()).concat(" (").concat(format_backup_size(b.size).as_str()).concat(") - ").concat(
        format_stamp_minute(b.created_at).as_str(),
    )
}

/// The `/maint backups` answer: the first ten backups and how many more there
/// are, or the error listing them gave.
pub open spec fn backups_text(listed: Result<Seq<BackupInfo>, Seq<char>>) -> Seq<char> {
    match listed {
        Err(e) => failure_text("Error listing backups"@, e),
        Ok(bs) => if bs.len() == 0 {
            "No backups found."@
        } else {
            let n = if bs.len() < ITEMS_SHOWN { bs.len() } else { ITEMS_SHOWN as nat };
            listing("Backups:"@, capped(Seq::new(n, |i: int| backup_line_text(bs[i])), bs.len(), ITEMS_SHOWN as nat))
        },
    }
}

/// Formats the `/maint backups` answer.
pub fn format_maint_backups(listed: &Result<Vec<BackupInfo>, String>) -> (r: String)
    requires
        listed matches Ok(bs) ==> forall|i: int| 0 <= i < bs.len() && i < ITEMS_SHOWN ==> backup_line_ok(#[trigger] bs@[i]),
    ensures
        r@ == backups_text(match listed {
            Ok(bs) => Ok(bs@),
            Err(e) => Err(e@),
        }),
{
    match listed {
        Err(e) => failure("Error listing backups", e.as_str()),
        Ok(bs) => {
            if bs.len() == 0 {
                return owned("No backups found.");
            }
            let mut body = lines_of(bs, ITEMS_SHOWN, backup_line);
            let ghost n = if bs@.len() < ITEMS_SHOWN { bs@.len() } else { ITEMS_SHOWN as nat };
            assert(views(body@) =~= Seq::new(n, |i: int| backup_line_text(bs@[i])));
            note_more(&mut body, bs.len(), ITEMS_SHOWN);
            under_heading("Backups:", body)
        },
    }
}

fn job_line(j: &ScheduledJob) -> (r: String)
    requires
        j.last_run matches Some(t) ==> in_range(t as int),
    ensures
        r@ == "  "@ + format_job_spec(*j),
{
    owned("  ").concat(format_job(j).as_str())
}

/// The `/maint jobs` answer.
pub open spec fn jobs_text(js: Seq<ScheduledJob>) -> Seq<char> {
    if js.len() == 0 {
        "No scheduled jobs."@
    } else {
        listing("Scheduled Jobs:"@, Seq::new(js.len(), |i: int| "  "@ + format_job_spec(js[i])))
    }
}

/// Formats the `/maint jobs` answer.
pub fn format_maint_jobs(js: &Vec<ScheduledJob>) -> (r: String)
    requires
        forall|i: int| 0 <= i < js.len() ==> ((#[trigger] js@[i]).last_run matches Some(t) ==> in_range(t as int)),
    ensures
        r@ == jobs_text(js@),
{
    if js.len() == 0 {
        return owned("No scheduled jobs.");
    }
    let body = lines_of(js, js.len(), job_line);
    assert(views(body@) =~= Seq::new(js@.len(), |i: int| "  "@ + format_job_spec(js@[i])));
    under_heading("Scheduled Jobs:", body)
}

/// The answer to `/maint backup`.
pub open spec fn backup_made_text(outcome: Result<BackupInfo, Seq<char>>) -> Seq<char> {
    match outcome {
        Ok(b) => "Backup created:\n  Name: "@ + b.name@ + "\n  Size: "@ + format_backup_size_spec(b.size as nat),
        Err(e) => failure_text("Error creating backup"@, e),
    }
}

/// Formats the answer to `/maint backup`.
pub fn backup_made_reply(outcome: &Result<BackupInfo, String>) -> (r: String)
    ensures
        r@ == backup_made_text(match outcome {
            Ok(b) => Ok(*b),
            Err(e) => Err(e@),
        }),
{
    match outcome {
        Ok(b) => owned("Backup created:\n  Name: ").concat(b.name.as_str()).concat("\n  Size: ").concat(
            format_backup_size(b.size).as_str(),
        ),
        Err(e) => failure("Error creating backup", e.as_str()),
    }
}

/// The answer to `/maint rotate`.
pub open spec fn rotation_text(outcome: Result<RotationResult, Seq<char>>) -> Seq<char> {
    match outcome {
        Ok(r) => "Log rotation complete:\n  Rotated: "@ + decimal(r.files_rotated as nat) + " files\n  Deleted: "@
            + decimal(r.files_deleted as nat) + " old files\n  Processed: "@ + format_backup_size_spec(
            r.bytes_processed as nat,
        ) + " bytes"@,
        Err(e) => failure_text("Error rotating logs"@, e),
    }
}

/// Formats the answer to `/maint rotate`.
pub fn rotation_reply(outcome: &Result<RotationResult, String>) -> (r: String)
    ensures
        r@ == rotation_text(match outcome {
            Ok(x) => Ok(*x),
            Err(e) => Err(e@),
        }),
{
    match outcome {
        Ok(x) => owned("Log rotation complete:\n  Rotated: ").concat(u64_to_string(x.files_rotated as u64).as_str())
            .concat(" files\n  Deleted: ").concat(u64_to_string(x.files_deleted as u64).as_str()).concat(
            " old files\n  Processed: ",
        ).concat(format_backup_size(x.bytes_processed).as_str()).concat(" bytes"),
        Err(e) => failure("Error rotating logs", e.as_str()),
    }
}

/// The answer to `/maint update`.
pub open spec fn update_text(outcome: Result<UpdateInfo, Seq<char>>) -> Seq<char> {
    match outcome {
        Ok(i) => if i.update_available {
            "Update available!\n  Current: "@ + i.current_version@ + "\n  Latest: "@ + i.latest_version@ + "\n  URL: "@
                + match i.release_url {
                Some(u) => u@,
                None => "N/A"@,
            }
        } else {
            "Already up to date (v"@ + i.current_version@ + ")"@
        },
        Err(e) => failure_text("Error checking updates"@, e),
    }
}

/// Formats the answer to `/maint update`.
pub fn update_reply(outcome: &Result<UpdateInfo, String>) -> (r: String)
    ensures
        r@ == update_text(match outcome {
            Ok(i) => Ok(*i),
            Err(e) => Err(e@),
        }),
{
    match outcome {
        Ok(i) => if i.update_available {
            let url = match &i.release_url {
                Some(u) => owned(u.as_str()),
                None => owned("N/A"),
            };
            owned("Update available!\n  Current: ").concat(i.current_version.as_str()).concat("\n  Latest: ").concat(
                i.latest_version.as_str(),
            ).concat("\n  URL: ").concat(url.as_str())
        } else {
            owned("Already up to date (v").concat(i.current_version.as_str()).concat(")")
        },
        Err(e) => failure("Error checking updates", e.as_str()),
    }
}

/// The answer to `/maint` with an action it does not know.
pub fn maint_usage() -> (r: &'static str)
    ensures
        r@ == "Usage: /maint [status|backup|backups|jobs|rotate|update]"@,
{
    "Usage: /maint [status|backup|backups|jobs|rotate|update]"
}

// ---------------------------------------------------------------------------
// Reactive engine
// ---------------------------------------------------------------------------

/// The engine's state word.
pub open spec fn engine_state_word(s: ReactiveStatus) -> Seq<char> {
    if s.paused { "paused"@ } else if s.running { "running"@ } else { "stopped"@ }
}

/// The lines of the reactive status answer after its heading.
pub open spec fn reactive_status_lines(s: ReactiveStatus) -> Seq<Seq<char>> {
    seq!["  State: "@ + engine_state_word(s)] + match s.started_at {
        Some(t) => seq!["  Started: "@ + stamp_minute(t as int)],
        None => Seq::empty(),
    } + seq![
        "  Total Checks: "@ + decimal(s.total_checks as nat),
        "  Anomalies Detected: "@ + decimal(s.anomalies_detected as nat),
        "  Actions Executed: "@ + decimal(s.actions_executed as nat),
        "  Actions This Hour: "@ + decimal(s.actions_this_hour as nat) + "/20"@,
        "  Active Anomalies: "@ + decimal(s.active_anomalies as nat),
        "  Pending Approvals: "@ + decimal(s.pending_approvals as nat),
        "  Quiet Hours: "@ + (if s.in_quiet_hours { "yes"@ } else { "no"@ }),
    ] + match s.last_check {
        Some(t) => seq!["  Last Check: "@ + stamp_clock(t as int)],
        None => Seq::empty(),
    }
}

/// The `/reactive status` answer.
pub open spec fn reactive_status_text(s: ReactiveStatus) -> Seq<char> {
    listing("Reactive Status:"@, reactive_status_lines(s))
}

/// Formats the `/reactive status` answer.
pub fn format_reactive_status(s: &ReactiveStatus) -> (r: String)
    requires
        s.started_at matches Some(t) ==> in_range(t as int),
        s.last_check matches Some(t) ==> in_range(t as int),
    ensures
        r@ == reactive_status_text(*s),
{
    let word = if s.paused { "paused" } else if s.running { "running" } else { "stopped" };
    let mut body: Vec<String> = Vec::new();
    body.push(owned("  State: ").concat(word));
    match s.started_at {
        Some(t) => body.push(owned("  Started: ").concat(format_stamp_minute(t).as_str())),
        None => {},
    }
    let ghost head = views(body@);
    body.push(owned("  Total Checks: ").concat(u64_to_string(s.total_checks).as_str()));
    body.push(owned("  Anomalies Detected: ").concat(u64_to_string(s.anomalies_detected).as_str()));
    body.push(owned("  Actions Executed: ").concat(u64_to_string(s.actions_executed).as_str()));
    body.push(owned("  Actions This Hour: ").concat(u64_to_string(s.actions_this_hour as u64).as_str()).concat("/20"));
    body.push(owned("  Active Anomalies: ").concat(u64_to_string(s.active_anomalies as u64).as_str()));
    body.push(owned("  Pending Approvals: ").concat(u64_to_string(s.pending_approvals as u64).as_str()));
    body.push(owned("  Quiet Hours: ").concat(if s.in_quiet_hours { "yes" } else { "no" }));
    let ghost mid = views(body@);
    match s.last_check {
        Some(t) => body.push(owned("  Last Check: ").concat(format_stamp_clock(t).as_str())),
        None => {},
    }
    assert(views(body@) =~= reactive_status_lines(*s));
    under_heading("Reactive Status:", body)
}

/// The short word for an action's status in the history.
pub open spec fn action_glyph(s: ActionStatus) -> Seq<char> {
    match s {
        ActionStatus::Completed => "OK"@,
        ActionStatus::Failed => "ERR"@,
        ActionStatus::AwaitingApproval => "WAIT"@,
        ActionStatus::Executing => "RUN"@,
        _ => "?"@,
    }
}

/// An action's line in the history: status word, what it does and when it was made.
pub open spec fn history_line_text(a: Action) -> Seq<char> {
    "  "@ + action_glyph(a.status) + " "@ + action_description(a.action_type) + " "@ + stamp_month_minute(
        a.created_at as int,
    )
}

fn history_line(a: &Action) -> (r: String)
    requires
        in_range(a.created_at as int),
    ensures
        r@ == history_line_text(*a),
{
    let word = match a.status {
        ActionStatus::Completed => "OK",
        ActionStatus::Failed => "ERR",
        ActionStatus::AwaitingApproval => "WAIT",
        ActionStatus::Executing => "RUN",
        _ => "?",
    };
    owned("  ").concat(word).concat(" ").concat(a.action_type.description().as_str()).concat(" ").concat(
        format_stamp_month_minute(a.created_at).as_str(),
    )
}

/// The `/reactive history` answer.
pub open spec fn history_text(actions: Seq<Action>) -> Seq<char> {
    if actions.len() == 0 {
        "No actions in history."@
    } else {
        listing("Action History:"@, Seq::new(actions.len(), |i: int| history_line_text(actions[i])))
    }
}

/// Formats the `/reactive history` answer.
pub fn format_reactive_history(actions: &Vec<Action>) -> (r: String)
    requires
        forall|i: int| 0 <= i < actions.len() ==> in_range((#[trigger] actions@[i]).created_at as int),
    ensures
        r@ == history_text(actions@),
{
    if actions.len() == 0 {
        return owned("No actions in history.");
    }
    let body = lines_of(actions, actions.len(), history_line);
    assert(views(body@) =~= Seq::new(actions@.len(), |i: int| history_line_text(actions@[i])));
    under_heading("Action History:", body)
}

/// The short word for a severity.
pub open spec fn severity_glyph(s: Severity) -> Seq<char> {
    match s {
        Severity::Info => "INFO"@,
        Severity::Warning => "WARN"@,
        Severity::Critical => "CRIT"@,
        Severity::Emergency => "EMRG"@,
    }
}

/// An anomaly's line: severity, event type and description.
pub open spec fn anomaly_line_text(a: Anomaly) -> Seq<char> {
    "  "@ + severity_glyph(a.severity) + " "@ + event_type_spec(a.event) + " - "@ + description_spec(a.event)
}

fn anomaly_line(a: &Anomaly) -> (r: String)
    ensures
        r@ == anomaly_line_text(*a),
{
    let word = match a.severity {
        Severity::Info => "INFO",
        Severity::Warning => "WARN",
        Severity::Critical => "CRIT",
        Severity::Emergency => "EMRG",
    };
    owned("  ").concat(word).concat(" ").concat(a.event.event_type()).concat(" - ").concat(
        a.event.description().as_str(),
    )
}

/// The `/reactive anomalies` answer: the first ten, and how many more there are.
pub open spec fn anomalies_text(xs: Seq<Anomaly>) -> Seq<char> {
    if xs.len() == 0 {
        "No active anomalies."@
    } else {
        let n = if xs.len() < ITEMS_SHOWN { xs.len() } else { ITEMS_SHOWN as nat };
        listing("Active Anomalies:"@, capped(Seq::new(n, |i: int| anomaly_line_text(xs[i])), xs.len(), ITEMS_SHOWN as nat))
    }
}

/// Formats the `/reactive anomalies` answer.
pub fn format_reactive_anomalies(xs: &Vec<Anomaly>) -> (r: String)
    ensures
        r@ == anomalies_text(xs@),
{
    if xs.len() == 0 {
        return owned("No active anomalies.");
    }
    let mut body = lines_of(xs, ITEMS_SHOWN, anomaly_line);
    let ghost n = if xs@.len() < ITEMS_SHOWN { xs@.len() } else { ITEMS_SHOWN as nat };
    assert(views(body@) =~= Seq::new(n, |i: int| anomaly_line_text(xs@[i])));
    note_more(&mut body, xs.len(), ITEMS_SHOWN);
    under_heading("Active Anomalies:", body)
}

/// Whether the pending list can show this action.
pub open spec fn pending_line_ok(a: Action) -> bool {
    short_id_ok(a.id@) && in_range(a.created_at as int)
}

/// A pending action's line: short id, what it does and when it was made.
pub open spec fn pending_line_text(a: Action) -> Seq<char> {
    "  ["@ + short_id(a.id@) + "] "@ + action_description(a.action_type) + " - "@ + stamp_month_minute(
        a.created_at as int,
    )
}

fn pending_line(a: &Action) -> (r: String)
    requires
        pending_line_ok(*a),
    ensures
        r@ == pending_line_text(*a),
{
    owned("  [").concat(prefix_bytes(a.id.as_str(), 8).as_str()).concat("] ").concat(
        a.action_type.description().as_str(),
    ).concat(" - ").concat(format_stamp_month_minute(a.created_at).as_str())
}

/// The `/reactive pending` answer, ending with how to approve.
pub open spec fn pending_text(actions: Seq<Action>) -> Seq<char> {
    if actions.len() == 0 {
        "No pending actions."@
    } else {
        listing(
            "Pending Approvals:"@,
            Seq::new(actions.len(), |i: int| pending_line_text(actions[i])) + seq![
                "\nUse /reactive approve <id> to approve."@,
            ],
        )
    }
}

/// Formats the `/reactive pending` answer.
pub fn format_reactive_pending(actions: &Vec<Action>) -> (r: String)
    requires
        forall|i: int| 0 <= i < actions.len() ==> pending_line_ok(#[trigger] actions@[i]),
    ensures
        r@ == pending_text(actions@),
{
    if actions.len() == 0 {
        return owned("No pending actions.");
    }
    let mut body = lines_of(actions, actions.len(), pending_line);
    assert(views(body@) =~= Seq::new(actions@.len(), |i: int| pending_line_text(actions@[i])));
    let ghost before = views(body@);
    body.push(owned("\nUse /reactive approve <id> to approve."));
    assert(views(body@) =~= before + seq!["\nUse /reactive approve <id> to approve."@]);
    under_heading("Pending Approvals:", body)
}

/// What a `/reactive` operation was.
#[derive(Debug)]
pub enum EngineOp {
    Pause,
    Resume,
    /// Approval of the action with this id.
    Approve(String),
}

/// The answer to a `/reactive` operation.
pub open spec fn engine_op_text(op: EngineOp, outcome: Result<(), Seq<char>>) -> Seq<char> {
    match op {
        EngineOp::Pause => match outcome {
            Ok(_) => "Reactive engine paused."@,
            Err(e) => failure_text("Error pausing"@, e),
        },
        EngineOp::Resume => match outcome {
            Ok(_) => "Reactive engine resumed."@,
            Err(e) => failure_text("Error resuming"@, e),
        },
        EngineOp::Approve(id) => match outcome {
            Ok(_) => "Action "@ + id@ + " approved."@,
            Err(e) => failure_text("Error approving action"@, e),
        },
    }
}

/// Formats the answer to a `/reactive` operation.
pub fn engine_op_reply(op: &EngineOp, outcome: &Result<(), String>) -> (r: String)
    ensures
        r@ == engine_op_text(*op, match outcome {
            Ok(_) => Ok(()),
            Err(e) => Err(e@),
        }),
{
    match op {
        EngineOp::Pause => match outcome {
            Ok(_) => owned("Reactive engine paused."),
            Err(e) => failure("Error pausing", e.as_str()),
        },
        EngineOp::Resume => match outcome {
            Ok(_) => owned("Reactive engine resumed."),
            Err(e) => failure("Error resuming", e.as_str()),
        },
        EngineOp::Approve(id) => match outcome {
            Ok(_) => owned("Action ").concat(id.as_str()).concat(" approved."),
            Err(e) => failure("Error approving action", e.as_str()),
        },
    }
}

} // verus!
