//! Single-instance locking by a TCP port and a PID file with stale detection.
//!
//! Probing the port, reading and writing the PID file and asking whether a process
//! lives are the caller's; these functions decide from what it found.

use vstd::prelude::*;
use crate::maint::update::{parse_u32, parse_u32_spec};
use crate::text::{chars_of, decimal, lemma_decimal_digits, lemma_decimal_trimmed, owned, trim_seq, trim_chars, u64_to_string};

verus! {

/// Errors of instance locking.
#[derive(Debug)]
pub enum LockError {
    /// The lock port is taken by another instance.
    PortInUse { port: u16 },
    /// The PID file names a running process.
    AlreadyRunning { pid: u32 },
    /// The PID file could not be written (the system's message).
    PidFileCreate(String),
    /// The PID file could not be read (the system's message).
    PidFileRead(String),
    /// The lock port could not be bound.
    BindFailed { port: u16, source: String },
    /// The PID file directory could not be created (the system's message).
    CreateDir(String),
}

impl LockError {
    /// The error message.
    pub fn message(&self) -> (r: String)
        ensures
            match self {
                LockError::PortInUse { port } => r@ == "another instance is already running (port "@ + decimal(*port as nat) + " in use)"@,
                LockError::AlreadyRunning { pid } => r@ == "another instance is already running (PID "@ + decimal(*pid as nat) + ")"@,
                LockError::PidFileCreate(e) => r@ == "failed to create PID file: "@ + e@,
                LockError::PidFileRead(e) => r@ == "failed to read PID file: "@ + e@,
                LockError::BindFailed { port, source } => r@ == "failed to bind to port "@ + decimal(*port as nat) + ": "@ + source@,
                LockError::CreateDir(e) => r@ == "failed to create lock directory: "@ + e@,
            },
    {
        match self {
            LockError::PortInUse { port } => {
                let d = u64_to_string(*port as u64);
                owned("another instance is already running (port ").concat(d.as_str()).concat(" in use)")
            },
            LockError::AlreadyRunning { pid } => {
                let d = u64_to_string(*pid as u64);
                owned("another instance is already running (PID ").concat(d.as_str()).concat(")")
            },
            LockError::PidFileCreate(e) => owned("failed to create PID file: ").concat(e.as_str()),
            LockError::PidFileRead(e) => owned("failed to read PID file: ").concat(e.as_str()),
            LockError::BindFailed { port, source } => {
                let d = u64_to_string(*port as u64);
                owned("failed to bind to port ").concat(d.as_str()).concat(": ").concat(source.as_str())
            },
            LockError::CreateDir(e) => owned("failed to create lock directory: ").concat(e.as_str()),
        }
    }
}

/// The process id a PID file holds: its text without surrounding whitespace read as
/// an unsigned number, or nothing when that fails.
pub fn parse_pid(content: &str) -> (r: Option<u32>)
    ensures
        r == parse_u32_spec(trim_seq(content@)),
{
    let v = chars_of(content);
    let t = trim_chars(&v);
    parse_u32(&t)
}

/// What was found of a PID file before locking.
#[derive(Debug)]
pub enum PidFileFound {
    /// There is no PID file.
    Absent,
    /// The file could not be read (the system's message).
    Unreadable(String),
    /// The file holds this text.
    Holds(String),
}

/// The pid a found PID file names, if it names one.
pub open spec fn found_pid(found: PidFileFound) -> Option<u32> {
    match found {
        PidFileFound::Holds(t) => parse_u32_spec(trim_seq(t@)),
        _ => None,
    }
}

/// The pid a found PID file names, if it names one.
pub fn pid_in(found: &PidFileFound) -> (r: Option<u32>)
    ensures
        r == found_pid(*found),
{
    match found {
        PidFileFound::Holds(t) => parse_pid(t.as_str()),
        _ => None,
    }
}

/// Whether taking the lock is refused: while the port answers, or while the PID
/// file names a live process.
pub open spec fn refused(port_in_use: bool, pid: Option<u32>, pid_alive: bool) -> bool {
    port_in_use || (pid is Some && pid_alive)
}

/// The running instance detected without locking: with the port taken, the pid of
/// the PID file (0 when it names none); otherwise the pid of a live process named by
/// the PID file; otherwise none.
pub open spec fn detected(port_in_use: bool, pid: Option<u32>, pid_alive: bool) -> Option<u32> {
    if port_in_use {
        Some(match pid { Some(p) => p, None => 0u32 })
    } else if pid is Some && pid_alive {
        pid
    } else {
        None
    }
}

/// Decides whether the lock may be taken, before binding the port: not while the
/// port answers, nor while the PID file names a live process. The result tells
/// whether a stale or unreadable PID file is to be removed first. Whether the named
/// process lives is asked only when the file names one.
pub fn acquire_check(port: u16, port_in_use: bool, found: &PidFileFound, pid_alive: bool) -> (r: Result<bool, LockError>)
    ensures
        port_in_use ==> (r matches Err(LockError::PortInUse { port: p }) && p == port),
        !port_in_use && found is Absent ==> r == Ok::<bool, LockError>(false),
        !port_in_use && !(found is Absent) && found_pid(*found) is None ==> r == Ok::<bool, LockError>(true),
        !port_in_use && found_pid(*found) is Some && pid_alive
            ==> (r matches Err(LockError::AlreadyRunning { pid }) && Some(pid) == found_pid(*found)),
        !port_in_use && found_pid(*found) is Some && !pid_alive ==> r == Ok::<bool, LockError>(true),
        r is Err <==> refused(port_in_use, found_pid(*found), pid_alive),
{
    if port_in_use {
        return Err(LockError::PortInUse { port });
    }
    match found {
        PidFileFound::Absent => Ok(false),
        _ => match pid_in(found) {
            Some(pid) => {
                if pid_alive {
                    Err(LockError::AlreadyRunning { pid })
                } else {
                    Ok(true)
                }
            },
            None => Ok(true),
        },
    }
}

/// Whether another instance runs, without locking: with the port taken, the pid of
/// the PID file (0 when it names none); otherwise the pid of the PID file when that
/// process lives; otherwise nothing.
pub fn check_running(port_in_use: bool, pid: Option<u32>, pid_alive: bool) -> (r: Option<u32>)
    ensures
        r == detected(port_in_use, pid, pid_alive),
{
    if port_in_use {
        match pid {
            Some(p) => Some(p),
            None => Some(0),
        }
    } else {
        match pid {
            Some(p) => if pid_alive { Some(p) } else { None },
            None => None,
        }
    }
}

/// The text written to the PID file: the process id in decimal.
pub fn pid_file_text(pid: u32) -> (r: String)
    ensures
        r@ == decimal(pid as nat),
{
    u64_to_string(pid as u64)
}

// ---------------------------------------------------------------------------
// Laws
// ---------------------------------------------------------------------------

/// The status check reports a running instance exactly when taking the lock would
/// be refused.
pub proof fn law_detection_matches_refusal(port_in_use: bool, pid: Option<u32>, pid_alive: bool)
    ensures
        detected(port_in_use, pid, pid_alive) is Some <==> refused(port_in_use, pid, pid_alive),
{
}

/// What is written to the PID file reads back as the same process id.
pub proof fn law_pid_file_round_trip(pid: u32)
    ensures
        parse_u32_spec(trim_seq(decimal(pid as nat))) == Some(pid),
{
    lemma_decimal_trimmed(pid as nat);
    lemma_decimal_digits(pid as nat);
    let s = decimal(pid as nat);
    assert(s[0] != '+') by {
        assert('0' <= s[0] <= '9');
    }
}

} // verus!
