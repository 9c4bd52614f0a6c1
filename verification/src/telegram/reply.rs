//! The texts the bot answers with: one line per item under a heading, lines
//! joined by newlines.

use vstd::prelude::*;
use crate::float32::format_1dp_spec;
use crate::health::{
    format_bytes, format_bytes_spec, format_duration, format_duration_spec, DiskMetrics, HealthSnapshot,
    HealthStatus, ModuleHealth, SystemMetrics,
};
use crate::text::{decimal, join, join_seq, owned, u64_to_string, views};

verus! {

/// Errors of the Telegram bot.
#[derive(Debug)]
pub enum TelegramError {
    /// The bot token is empty or was refused.
    InvalidToken,
    /// The Telegram API failed.
    Api(String),
    /// The token could not be read from the secret store.
    Secrets(String),
    /// The configuration is unusable.
    Config(String),
}

/// What each error says.
pub open spec fn telegram_error_text(e: TelegramError) -> Seq<char> {
    match e {
        TelegramError::InvalidToken => "bot token not found or invalid"@,
        TelegramError::Api(m) => "telegram API error: "@ + m@,
        TelegramError::Secrets(m) => "secrets error: "@ + m@,
        TelegramError::Config(m) => "configuration error: "@ + m@,
    }
}

impl TelegramError {
    /// The error's message.
    pub fn message(&self) -> (r: String)
        ensures
            r@ == telegram_error_text(*self),
    {
        match self {
            TelegramError::InvalidToken => owned("bot token not found or invalid"),
            TelegramError::Api(m) => owned("telegram API error: ").concat(m.as_str()),
            TelegramError::Secrets(m) => owned("secrets error: ").concat(m.as_str()),
            TelegramError::Config(m) => owned("configuration error: ").concat(m.as_str()),
        }
    }
}

/// The answer to anyone not on the allow-lists.
pub fn unauthorized_text() -> (r: &'static str)
    ensures
        r@ == "Unauthorized. Access denied."@,
{
    "Unauthorized. Access denied."
}

/// The answer to `/start`.
pub fn start_text() -> (r: &'static str)
    ensures
        r@ == "Henry daemon bot. Use /help to see available commands."@,
{
    "Henry daemon bot. Use /help to see available commands."
}

/// The answer when the module a command needs is not running.
pub fn not_enabled_text(module: &str) -> (r: String)
    ensures
        r@ == module@ + " module not enabled."@,
{
    owned(module).concat(" module not enabled.")
}

// ---------------------------------------------------------------------------
// Lists of lines
// ---------------------------------------------------------------------------

/// A heading followed by lines, joined by newlines.
pub open spec fn listing(heading: Seq<char>, body: Seq<Seq<char>>) -> Seq<char> {
    join_seq(seq![heading] + body, "\n"@)
}

/// The number of items shown when at most `limit` are.
pub open spec fn shown(len: nat, limit: nat) -> nat {
    if len < limit { len } else { limit }
}

/// The line for each of the first `limit` items, made by `f`.
pub(crate) fn lines_of<T, F: Fn(&T) -> String>(items: &Vec<T>, limit: usize, f: F) -> (r: Vec<String>)
    requires
        forall|i: int| 0 <= i < shown(items.len() as nat, limit as nat) ==> call_requires(f, (&items@[i],)),
    ensures
        r.len() == shown(items.len() as nat, limit as nat),
        forall|i: int| 0 <= i < r.len() ==> call_ensures(f, (&items@[i],), #[trigger] r@[i]),
{
    let n: usize = if items.len() < limit { items.len() } else { limit };
    let mut out: Vec<String> = Vec::new();
    let mut i: usize = 0;
    while i < n
        invariant
            n <= items.len(),
            n == shown(items.len() as nat, limit as nat),
            i <= n,
            out.len() == i,
            forall|k: int| 0 <= k < n ==> call_requires(f, (&items@[k],)),
            forall|k: int| 0 <= k < i ==> call_ensures(f, (&items@[k],), #[trigger] out@[k]),
        decreases n - i,
    {
        let line = f(&items[i]);
        out.push(line);
        i = i + 1;
    }
    out
}

/// The note that `extra` more items were left out.
pub open spec fn more_line(extra: nat) -> Seq<char> {
    "  ... and "@ + decimal(extra) + " more"@
}

/// Lines of at most `cap` items, with a note of how many more there were.
pub open spec fn capped(lines: Seq<Seq<char>>, total: nat, cap: nat) -> Seq<Seq<char>> {
    if total > cap { lines + seq![more_line((total - cap) as nat)] } else { lines }
}

/// Adds the note of how many of `total` items were left out past `cap`.
pub(crate) fn note_more(lines: &mut Vec<String>, total: usize, cap: usize)
    ensures
        views(final(lines)@) == capped(views(old(lines)@), total as nat, cap as nat),
{
    if total > cap {
        lines.push(owned("  ... and ").concat(u64_to_string((total - cap) as u64).as_str()).concat(" more"));
        assert(views(lines@) =~= views(old(lines)@) + seq![more_line((total - cap) as nat)]);
    }
}

/// Appends the lines of `more` to `lines`.
pub(crate) fn append_lines(lines: &mut Vec<String>, more: &Vec<String>)
    ensures
        views(final(lines)@) == views(old(lines)@) + views(more@),
{
    let ghost start = views(lines@);
    let mut i: usize = 0;
    while i < more.len()
        invariant
            i <= more.len(),
            views(lines@) == start + views(more@).take(i as int),
        decreases more.len() - i,
    {
        let ghost before = lines@;
        lines.push(more[i].clone());
        assert(lines@ =~= before.push(more@[i as int]));
        assert(views(lines@) =~= views(before).push(more@[i as int]@));
        assert(views(more@).take(i + 1) =~= views(more@).take(i as int).push(more@[i as int]@));
        i = i + 1;
        assert(views(lines@) =~= start + views(more@).take(i as int));
    }
    assert(views(more@).take(more.len() as int) =~= views(more@));
}

/// A heading, then the given lines, joined by newlines.
pub(crate) fn under_heading(heading: &str, body: Vec<String>) -> (r: String)
    ensures
        r@ == listing(heading@, views(body@)),
{
    let mut lines: Vec<String> = Vec::new();
    lines.push(owned(heading));
    let mut i: usize = 0;
    while i < body.len()
        invariant
            i <= body.len(),
            lines.len() == i + 1,
            lines@[0]@ == heading@,
            forall|k: int| 0 <= k < i ==> (#[trigger] lines@[k + 1])@ == body@[k]@,
        decreases body.len() - i,
    {
        lines.push(body[i].clone());
        i = i + 1;
    }
    assert(views(lines@) =~= seq![heading@] + views(body@)) by {
        assert forall|k: int| 0 <= k < lines.len() implies views(lines@)[k] == (seq![heading@] + views(body@))[k] by {
            if k > 0 {
                assert(lines@[(k - 1) + 1]@ == body@[k - 1]@);
            }
        }
    }
    join(&lines, "\n")
}

// ---------------------------------------------------------------------------
// Health
// ---------------------------------------------------------------------------

/// The short word for a health status.
pub open spec fn health_glyph(s: HealthStatus) -> Seq<char> {
    match s {
        HealthStatus::Healthy => "OK"@,
        HealthStatus::Degraded => "WARN"@,
        HealthStatus::Unhealthy => "ERR"@,
        HealthStatus::Unknown => "?"@,
    }
}

fn glyph_of(s: HealthStatus) -> (r: &'static str)
    ensures
        r@ == health_glyph(s),
{
    match s {
        HealthStatus::Healthy => "OK",
        HealthStatus::Degraded => "WARN",
        HealthStatus::Unhealthy => "ERR",
        HealthStatus::Unknown => "?",
    }
}

/// The `/status` answer for a snapshot.
pub open spec fn status_text(s: HealthSnapshot) -> Seq<char> {
    "Henry Status: "@ + health_glyph(s.overall_status) + "\nVersion: "@ + s.version@ + "\nUptime: "@
        + format_duration_spec(s.uptime_secs as nat) + "\nCPU: "@ + format_1dp_spec(s.system.cpu_percent.bits)
        + "%\nMemory: "@ + format_bytes_spec(s.system.memory_used as nat) + "/"@
        + format_bytes_spec(s.system.memory_total as nat) + " ("@ + format_1dp_spec(s.system.memory_percent.bits)
        + "%)"@
}

/// Formats the `/status` answer.
pub fn format_status(s: &HealthSnapshot) -> (r: String)
    ensures
        r@ == status_text(*s),
{
    owned("Henry Status: ").concat(glyph_of(s.overall_status)).concat("\nVersion: ").concat(s.version.as_str())
        .concat("\nUptime: ").concat(format_duration(s.uptime_secs).as_str()).concat("\nCPU: ")
        .concat(s.system.cpu_percent.format_1dp().as_str()).concat("%\nMemory: ")
        .concat(format_bytes(s.system.memory_used).as_str()).concat("/")
        .concat(format_bytes(s.system.memory_total).as_str()).concat(" (")
        .concat(s.system.memory_percent.format_1dp().as_str()).concat("%)")
}

/// A module's line: `OFF` when disabled, else its status word, then its name.
pub open spec fn module_line_text(m: ModuleHealth) -> Seq<char> {
    "  "@ + (if !m.enabled { "OFF"@ } else { health_glyph(m.status) }) + " "@ + m.name@
}

fn module_line(m: &ModuleHealth) -> (r: String)
    ensures
        r@ == module_line_text(*m),
{
    let word = if !m.enabled { "OFF" } else { glyph_of(m.status) };
    owned("  ").concat(word).concat(" ").concat(m.name.as_str())
}

/// The `/modules` answer.
pub open spec fn modules_text(ms: Seq<ModuleHealth>) -> Seq<char> {
    if ms.len() == 0 {
        "No modules registered."@
    } else {
        listing("Modules:"@, Seq::new(ms.len(), |i: int| module_line_text(ms[i])))
    }
}

/// Formats the `/modules` answer.
pub fn format_modules(modules: &Vec<ModuleHealth>) -> (r: String)
    ensures
        r@ == modules_text(modules@),
{
    if modules.len() == 0 {
        return owned("No modules registered.");
    }
    let body = lines_of(modules, modules.len(), module_line);
    assert(views(body@) =~= Seq::new(modules@.len(), |i: int| module_line_text(modules@[i])));
    under_heading("Modules:", body)
}

/// A disk's line: mount point, used and total size, and percentage.
pub open spec fn disk_line_text(d: DiskMetrics) -> Seq<char> {
    "  "@ + d.mount_point@ + " "@ + format_bytes_spec(d.used as nat) + "/"@ + format_bytes_spec(d.total as nat)
        + " ("@ + format_1dp_spec(d.percent.bits) + "%)"@
}

fn disk_line(d: &DiskMetrics) -> (r: String)
    ensures
        r@ == disk_line_text(*d),
{
    owned("  ").concat(d.mount_point.as_str()).concat(" ").concat(format_bytes(d.used).as_str()).concat("/")
        .concat(format_bytes(d.total).as_str()).concat(" (").concat(d.percent.format_1dp().as_str()).concat("%)")
}

/// The `/metrics` answer.
pub open spec fn metrics_text(m: SystemMetrics) -> Seq<char> {
    join_seq(
        seq![
            "CPU: "@ + format_1dp_spec(m.cpu_percent.bits) + "%"@,
            "Memory: "@ + format_bytes_spec(m.memory_used as nat) + "/"@ + format_bytes_spec(m.memory_total as nat)
                + " ("@ + format_1dp_spec(m.memory_percent.bits) + "%)"@,
            "Disks:"@,
        ] + Seq::new(m.disks@.len(), |i: int| disk_line_text(m.disks@[i])),
        "\n"@,
    )
}

/// Formats the `/metrics` answer.
pub fn format_metrics(m: &SystemMetrics) -> (r: String)
    ensures
        r@ == metrics_text(*m),
{
    let mut lines: Vec<String> = Vec::new();
    lines.push(owned("CPU: ").concat(m.cpu_percent.format_1dp().as_str()).concat("%"));
    lines.push(
        owned("Memory: ").concat(format_bytes(m.memory_used).as_str()).concat("/").concat(
            format_bytes(m.memory_total).as_str(),
        ).concat(" (").concat(m.memory_percent.format_1dp().as_str()).concat("%)"),
    );
    lines.push(owned("Disks:"));
    let disks = lines_of(&m.disks, m.disks.len(), disk_line);
    let mut i: usize = 0;
    while i < disks.len()
        invariant
            i <= disks.len(),
            disks.len() == m.disks.len(),
            lines.len() == i + 3,
            forall|k: int| 0 <= k < disks.len() ==> (#[trigger] disks@[k])@ == disk_line_text(m.disks@[k]),
            forall|k: int| 0 <= k < i ==> (#[trigger] lines@[k + 3])@ == disk_line_text(m.disks@[k]),
            lines@[0]@ == "CPU: "@ + format_1dp_spec(m.cpu_percent.bits) + "%"@,
            lines@[1]@ == "Memory: "@ + format_bytes_spec(m.memory_used as nat) + "/"@ + format_bytes_spec(
                m.memory_total as nat,
            ) + " ("@ + format_1dp_spec(m.memory_percent.bits) + "%)"@,
            lines@[2]@ == "Disks:"@,
        decreases disks.len() - i,
    {
        lines.push(disks[i].clone());
        i = i + 1;
    }
    let ghost want = seq![
        "CPU: "@ + format_1dp_spec(m.cpu_percent.bits) + "%"@,
        "Memory: "@ + format_bytes_spec(m.memory_used as nat) + "/"@ + format_bytes_spec(m.memory_total as nat)
            + " ("@ + format_1dp_spec(m.memory_percent.bits) + "%)"@,
        "Disks:"@,
    ] + Seq::new(m.disks@.len(), |i: int| disk_line_text(m.disks@[i]));
    assert(views(lines@) =~= want) by {
        assert forall|k: int| 3 <= k < lines.len() implies views(lines@)[k] == want[k] by {
            assert(lines@[(k - 3) + 3]@ == disk_line_text(m.disks@[k - 3]));
        }
    }
    join(&lines, "\n")
}

} // verus!
