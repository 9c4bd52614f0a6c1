//! State of the terminal interface: tabs, the activity log, the command line and
//! what each key does.
//!
//! Drawing, reading keys and refreshing metrics are the caller's; a key handler
//! tells when metrics are to be refreshed.

use vstd::prelude::*;
use crate::health::{HealthStatus, ModuleHealth, SystemMetrics};
use crate::text::{chars_of, owned, slice_chars, str_eq, string_of, trim, trim_seq};

verus! {

/// Most activity log entries kept.
pub const MAX_LOG_ENTRIES: usize = 100;

/// Tabs of the interface.
#[derive(Clone, Copy, Debug, PartialEq, Eq, Structural)]
pub enum AppState {
    Dashboard,
    Modules,
    Containers,
    Logs,
    Help,
}

/// Level of an activity log entry.
#[derive(Clone, Copy, Debug, PartialEq, Eq, Structural)]
pub enum LogLevel {
    Info,
    Warn,
    Error,
    Debug,
}

/// Activity log entry.
#[derive(Debug)]
pub struct LogEntry {
    /// When it was logged (milliseconds since the epoch).
    pub timestamp: i64,
    pub message: String,
    pub level: LogLevel,
}

/// The keys the interface reacts to.
#[derive(Clone, Copy, Debug, PartialEq, Eq, Structural)]
pub enum Key {
    Enter,
    Esc,
    Backspace,
    Tab,
    Up,
    Down,
    /// A function key by number.
    F(u8),
    Char(char),
    /// Any other key.
    Other,
}

/// The tab after `s` in the cycle Dashboard, Modules, Containers, Logs; Help goes
/// back to the dashboard.
pub open spec fn next_tab(s: AppState) -> AppState {
    match s {
        AppState::Dashboard => AppState::Modules,
        AppState::Modules => AppState::Containers,
        AppState::Containers => AppState::Logs,
        AppState::Logs => AppState::Dashboard,
        AppState::Help => AppState::Dashboard,
    }
}

/// The commands of the command line.
#[derive(Clone, Copy, Debug, PartialEq, Eq, Structural)]
pub enum TuiCommand {
    Help,
    Refresh,
    Modules,
    Containers,
    Logs,
    Quit,
    Unknown,
}

/// The command a trimmed command line names: one word, in full or abbreviated.
pub open spec fn command_of(cmd: Seq<char>) -> TuiCommand {
    if cmd == "help"@ {
        TuiCommand::Help
    } else if cmd == "refresh"@ || cmd == "r"@ {
        TuiCommand::Refresh
    } else if cmd == "modules"@ || cmd == "m"@ {
        TuiCommand::Modules
    } else if cmd == "containers"@ || cmd == "c"@ {
        TuiCommand::Containers
    } else if cmd == "logs"@ || cmd == "l"@ {
        TuiCommand::Logs
    } else if cmd == "quit"@ || cmd == "q"@ {
        TuiCommand::Quit
    } else {
        TuiCommand::Unknown
    }
}

/// Parses a trimmed command line.
pub fn parse_command(cmd: &str) -> (r: TuiCommand)
    ensures
        r == command_of(cmd@),
{
    if str_eq(cmd, "help") {
        TuiCommand::Help
    } else if str_eq(cmd, "refresh") || str_eq(cmd, "r") {
        TuiCommand::Refresh
    } else if str_eq(cmd, "modules") || str_eq(cmd, "m") {
        TuiCommand::Modules
    } else if str_eq(cmd, "containers") || str_eq(cmd, "c") {
        TuiCommand::Containers
    } else if str_eq(cmd, "logs") || str_eq(cmd, "l") {
        TuiCommand::Logs
    } else if str_eq(cmd, "quit") || str_eq(cmd, "q") {
        TuiCommand::Quit
    } else {
        TuiCommand::Unknown
    }
}

/// The log after adding an entry: the oldest entry is dropped when the log is full.
pub open spec fn logged(log: Seq<LogEntry>, e: LogEntry) -> Seq<LogEntry> {
    if log.len() >= MAX_LOG_ENTRIES { log.skip(1).push(e) } else { log.push(e) }
}

/// The symbol of a module's status in listings; a disabled module is a hollow circle.
pub open spec fn status_icon(status: HealthStatus, enabled: bool) -> Seq<char> {
    if !enabled {
        "○"@
    } else {
        match status {
            HealthStatus::Healthy => "●"@,
            HealthStatus::Degraded => "◐"@,
            HealthStatus::Unhealthy => "◉"@,
            HealthStatus::Unknown => "◌"@,
        }
    }
}

/// The colours the interface shows a status in.
#[derive(Clone, Copy, Debug, PartialEq, Eq, Structural)]
pub enum StatusColor {
    DarkGray,
    Green,
    Yellow,
    Red,
    Gray,
}

/// The colour of a module's status; a disabled module is dark grey.
pub open spec fn status_color(status: HealthStatus, enabled: bool) -> StatusColor {
    if !enabled {
        StatusColor::DarkGray
    } else {
        match status {
            HealthStatus::Healthy => StatusColor::Green,
            HealthStatus::Degraded => StatusColor::Yellow,
            HealthStatus::Unhealthy => StatusColor::Red,
            HealthStatus::Unknown => StatusColor::Gray,
        }
    }
}

/// The colour of the header's light: green when every enabled module is healthy,
/// red when an enabled module is unhealthy, yellow otherwise.
pub open spec fn header_light(modules: Seq<ModuleHealth>) -> StatusColor {
    if forall|i: int| 0 <= i < modules.len() ==> !(#[trigger] modules[i]).enabled || modules[i].status == HealthStatus::Healthy {
        StatusColor::Green
    } else if exists|i: int| 0 <= i < modules.len() && (#[trigger] modules[i]).enabled && modules[i].status == HealthStatus::Unhealthy {
        StatusColor::Red
    } else {
        StatusColor::Yellow
    }
}

/// Application state of the terminal interface.
pub struct App {
    /// Whether the interface should close.
    pub should_quit: bool,
    /// Current tab.
    pub state: AppState,
    /// Last system metrics read.
    pub system_metrics: Option<SystemMetrics>,
    /// Module health reports.
    pub modules: Vec<ModuleHealth>,
    /// Activity log, oldest first.
    pub activity_log: Vec<LogEntry>,
    /// Command line being typed.
    pub command_input: String,
    /// Whether the command line has the focus.
    pub command_focused: bool,
    /// Selected module.
    pub selected_module: usize,
    /// Version shown in the header.
    pub version: String,
}

impl App {
    /// The interface at start: the dashboard, nothing logged or typed.
    pub fn new(version: &str) -> (r: App)
        ensures
            !r.should_quit,
            r.state == AppState::Dashboard,
            r.system_metrics is None,
            r.modules@.len() == 0,
            r.activity_log@.len() == 0,
            r.command_input@.len() == 0,
            !r.command_focused,
            r.selected_module == 0,
            r.version@ == version@,
    {
        App {
            should_quit: false,
            state: AppState::Dashboard,
            system_metrics: None,
            modules: Vec::new(),
            activity_log: Vec::new(),
            command_input: String::new(),
            command_focused: false,
            selected_module: 0,
            version: owned(version),
        }
    }

    /// Adds an entry logged at `now`, dropping the oldest when the log is full.
    pub fn log(&mut self, level: LogLevel, message: String, now: i64)
        ensures
            final(self).activity_log@ == logged(old(self).activity_log@, LogEntry { timestamp: now, message, level }),
            final(self).should_quit == old(self).should_quit,
            final(self).state == old(self).state,
            final(self).modules == old(self).modules,
            final(self).command_input == old(self).command_input,
            final(self).command_focused == old(self).command_focused,
            final(self).selected_module == old(self).selected_module,
            final(self).system_metrics == old(self).system_metrics,
            final(self).version == old(self).version,
    {
        let mut log: Vec<LogEntry> = Vec::new();
        std::mem::swap(&mut log, &mut self.activity_log);
        let ghost before = log@;
        if log.len() >= MAX_LOG_ENTRIES {
            log.remove(0);
            assert(log@ =~= before.skip(1));
        }
        log.push(LogEntry { timestamp: now, message, level });
        self.activity_log = log;
    }

    /// Adds an information entry.
    pub fn log_info(&mut self, message: String, now: i64)
        ensures
            final(self).activity_log@ == logged(old(self).activity_log@, LogEntry { timestamp: now, message, level: LogLevel::Info }),
            final(self).state == old(self).state,
            final(self).should_quit == old(self).should_quit,
    {
        self.log(LogLevel::Info, message, now);
    }

    /// Adds a warning entry.
    pub fn log_warn(&mut self, message: String, now: i64)
        ensures
            final(self).activity_log@ == logged(old(self).activity_log@, LogEntry { timestamp: now, message, level: LogLevel::Warn }),
            final(self).state == old(self).state,
            final(self).should_quit == old(self).should_quit,
    {
        self.log(LogLevel::Warn, message, now);
    }

    /// Adds an error entry.
    pub fn log_error(&mut self, message: String, now: i64)
        ensures
            final(self).activity_log@ == logged(old(self).activity_log@, LogEntry { timestamp: now, message, level: LogLevel::Error }),
            final(self).state == old(self).state,
            final(self).should_quit == old(self).should_quit,
    {
        self.log(LogLevel::Error, message, now);
    }

    /// Runs a trimmed command line at `now`: logs it, then switches tab, quits, or
    /// logs a warning for an unknown command. Tells whether metrics are to be
    /// refreshed.
    pub fn execute_command(&mut self, cmd: &str, now: i64) -> (refresh: bool)
        ensures
            refresh == (command_of(cmd@) == TuiCommand::Refresh),
            final(self).state == match command_of(cmd@) {
                TuiCommand::Help => AppState::Help,
                TuiCommand::Modules => AppState::Modules,
                TuiCommand::Containers => AppState::Containers,
                TuiCommand::Logs => AppState::Logs,
                _ => old(self).state,
            },
            final(self).should_quit == (old(self).should_quit || command_of(cmd@) == TuiCommand::Quit),
            final(self).command_input == old(self).command_input,
            final(self).command_focused == old(self).command_focused,
            final(self).selected_module == old(self).selected_module,
            final(self).modules == old(self).modules,
    {
        let echo = owned("> ").concat(cmd);
        self.log(LogLevel::Info, echo, now);
        match parse_command(cmd) {
            TuiCommand::Help => {
                self.state = AppState::Help;
                false
            },
            TuiCommand::Refresh => {
                self.log(LogLevel::Info, owned("Metrics refreshed"), now);
                true
            },
            TuiCommand::Modules => {
                self.state = AppState::Modules;
                false
            },
            TuiCommand::Containers => {
                self.state = AppState::Containers;
                false
            },
            TuiCommand::Logs => {
                self.state = AppState::Logs;
                false
            },
            TuiCommand::Quit => {
                self.should_quit = true;
                false
            },
            TuiCommand::Unknown => {
                let warn = owned("Unknown command: ").concat(cmd);
                self.log(LogLevel::Warn, warn, now);
                false
            },
        }
    }

    /// Handles a key at `now` and tells whether metrics are to be refreshed.
    ///
    /// With the command line focused: Enter runs the trimmed line when it is not
    /// empty, then clears and leaves it; Esc clears and leaves it; Backspace drops
    /// the last character; a character is typed. Otherwise: Tab cycles the tabs, F1
    /// shows help, F5 refreshes, `:` or `/` focuses the command line, Up/`k` and
    /// Down/`j` move the selection within the modules, `1` to `4` pick a tab.
    pub fn handle_key(&mut self, key: Key, now: i64) -> (refresh: bool)
        ensures
            old(self).command_focused && key == Key::Esc ==> !final(self).command_focused
                && final(self).command_input@.len() == 0 && !refresh && final(self).state == old(self).state,
            old(self).command_focused ==> (key matches Key::Char(c) ==> final(self).command_input@ == old(self).command_input@.push(c)
                && final(self).command_focused && !refresh),
            old(self).command_focused && key == Key::Backspace ==> final(self).command_input@ == (
                if old(self).command_input@.len() > 0 { old(self).command_input@.drop_last() } else { old(self).command_input@ })
                && final(self).command_focused && !refresh,
            old(self).command_focused && key == Key::Enter ==> !final(self).command_focused
                && final(self).command_input@.len() == 0
                && refresh == (trim_seq(old(self).command_input@).len() > 0 && command_of(trim_seq(old(self).command_input@)) == TuiCommand::Refresh),
            !old(self).command_focused && key == Key::Tab ==> final(self).state == next_tab(old(self).state) && !refresh,
            !old(self).command_focused && key == Key::F(1) ==> final(self).state == AppState::Help && !refresh,
            !old(self).command_focused && key == Key::F(5) ==> refresh && final(self).state == old(self).state,
            !old(self).command_focused && (key == Key::Char(':') || key == Key::Char('/')) ==> final(self).command_focused && !refresh,
            !old(self).command_focused && (key == Key::Up || key == Key::Char('k')) ==> final(self).selected_module == (
                if old(self).selected_module > 0 { (old(self).selected_module - 1) as usize } else { old(self).selected_module }),
            !old(self).command_focused && (key == Key::Down || key == Key::Char('j')) ==> final(self).selected_module == (
                if old(self).selected_module + 1 < old(self).modules@.len() { (old(self).selected_module + 1) as usize } else { old(self).selected_module }),
            !old(self).command_focused && key == Key::Char('1') ==> final(self).state == AppState::Dashboard,
            !old(self).command_focused && key == Key::Char('2') ==> final(self).state == AppState::Modules,
            !old(self).command_focused && key == Key::Char('3') ==> final(self).state == AppState::Containers,
            !old(self).command_focused && key == Key::Char('4') ==> final(self).state == AppState::Logs,
            final(self).modules == old(self).modules,
    {
        if self.command_focused {
            match key {
                Key::Enter => {
                    let cmd = trim(self.command_input.as_str());
                    let n = chars_of(cmd.as_str()).len();
                    let mut refresh = false;
                    if n > 0 {
                        refresh = self.execute_command(cmd.as_str(), now);
                    }
                    self.command_input = String::new();
                    self.command_focused = false;
                    refresh
                },
                Key::Esc => {
                    self.command_input = String::new();
                    self.command_focused = false;
                    false
                },
                Key::Backspace => {
                    let v = chars_of(self.command_input.as_str());
                    if v.len() > 0 {
                        let head = slice_chars(&v, 0, v.len() - 1);
                        self.command_input = string_of(head.as_slice());
                        assert(head@ =~= v@.drop_last());
                    }
                    false
                },
                Key::Char(c) => {
                    let mut v = chars_of(self.command_input.as_str());
                    v.push(c);
                    self.command_input = string_of(v.as_slice());
                    false
                },
                _ => false,
            }
        } else {
            match key {
                Key::Tab => {
                    self.state = match self.state {
                        AppState::Dashboard => AppState::Modules,
                        AppState::Modules => AppState::Containers,
                        AppState::Containers => AppState::Logs,
                        AppState::Logs => AppState::Dashboard,
                        AppState::Help => AppState::Dashboard,
                    };
                    false
                },
                Key::F(1) => {
                    self.state = AppState::Help;
                    false
                },
                Key::F(5) => {
                    self.log(LogLevel::Info, owned("Refreshed metrics"), now);
                    true
                },
                Key::Char(':') | Key::Char('/') => {
                    self.command_focused = true;
                    false
                },
                Key::Up | Key::Char('k') => {
                    if self.selected_module > 0 {
                        self.selected_module = self.selected_module - 1;
                    }
                    false
                },
                Key::Down | Key::Char('j') => {
                    let last: usize = if self.modules.len() > 0 { self.modules.len() - 1 } else { 0 };
                    if self.selected_module < last {
                        self.selected_module = self.selected_module + 1;
                    }
                    false
                },
                Key::Char('1') => {
                    self.state = AppState::Dashboard;
                    false
                },
                Key::Char('2') => {
                    self.state = AppState::Modules;
                    false
                },
                Key::Char('3') => {
                    self.state = AppState::Containers;
                    false
                },
                Key::Char('4') => {
                    self.state = AppState::Logs;
                    false
                },
                _ => false,
            }
        }
    }

    /// The symbol of a module's status.
    pub fn module_status_icon(status: &HealthStatus, enabled: bool) -> (r: &'static str)
        ensures
            r@ == status_icon(*status, enabled),
    {
        if !enabled {
            return "○";
        }
        match status {
            HealthStatus::Healthy => "●",
            HealthStatus::Degraded => "◐",
            HealthStatus::Unhealthy => "◉",
            HealthStatus::Unknown => "◌",
        }
    }

    /// The colour of a module's status.
    pub fn module_status_color(status: &HealthStatus, enabled: bool) -> (r: StatusColor)
        ensures
            r == status_color(*status, enabled),
    {
        if !enabled {
            return StatusColor::DarkGray;
        }
        match status {
            HealthStatus::Healthy => StatusColor::Green,
            HealthStatus::Degraded => StatusColor::Yellow,
            HealthStatus::Unhealthy => StatusColor::Red,
            HealthStatus::Unknown => StatusColor::Gray,
        }
    }

    /// The colour of the header's light for the registered modules.
    pub fn header_color(&self) -> (r: StatusColor)
        ensures
            r == header_light(self.modules@),
    {
        let mut all_healthy = true;
        let mut any_unhealthy = false;
        let mut i: usize = 0;
        while i < self.modules.len()
            invariant
                i <= self.modules@.len(),
                all_healthy <==> forall|k: int| 0 <= k < i ==> !(#[trigger] self.modules@[k]).enabled
                    || self.modules@[k].status == HealthStatus::Healthy,
                any_unhealthy <==> exists|k: int| 0 <= k < i && (#[trigger] self.modules@[k]).enabled
                    && self.modules@[k].status == HealthStatus::Unhealthy,
            decreases self.modules.len() - i,
        {
            let m = &self.modules[i];
            if m.enabled && m.status != HealthStatus::Healthy {
                all_healthy = false;
            }
            if m.enabled && m.status == HealthStatus::Unhealthy {
                any_unhealthy = true;
            }
            i = i + 1;
        }
        if all_healthy {
            StatusColor::Green
        } else if any_unhealthy {
            StatusColor::Red
        } else {
            StatusColor::Yellow
        }
    }
}

// ---------------------------------------------------------------------------
// Laws
// ---------------------------------------------------------------------------

/// Logging keeps the log within its bound and puts the new entry last.
pub proof fn law_log_bounded(log: Seq<LogEntry>, e: LogEntry)
    requires
        log.len() <= MAX_LOG_ENTRIES,
    ensures
        logged(log, e).len() <= MAX_LOG_ENTRIES,
        logged(log, e).last() == e,
        log.len() < MAX_LOG_ENTRIES ==> logged(log, e).drop_last() == log,
{
    if log.len() < MAX_LOG_ENTRIES {
        assert(log.push(e).drop_last() =~= log);
    }
}

/// Four presses of Tab come back to the same tab; from help, Tab goes to the dashboard.
pub proof fn law_tab_cycle(s: AppState)
    ensures
        s != AppState::Help ==> next_tab(next_tab(next_tab(next_tab(s)))) == s,
        next_tab(AppState::Help) == AppState::Dashboard,
{
}

} // verus!
