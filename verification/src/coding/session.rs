//! The table of coding sessions: admission, stopping, refresh and cleanup.
//!
//! Spawning and killing the processes, and creating workspace directories, are
//! the caller's; this table decides what each step does to the sessions.

use vstd::prelude::*;
use crate::coding::types::{same_session, SessionInfo, SessionStatus};
use crate::clock::{in_range, new_uuid, is_uuid_char, uuid_v4_text};
use crate::config::{join_path, path_join};
use crate::daemon::first_existing;
use crate::text::{chars_of, owned, slice_chars, str_eq, string_of, u64_to_string, views};

verus! {

/// Session manager errors.
#[derive(Debug)]
pub enum SessionError {
    /// The workspace is not a directory.
    WorkspaceNotFound(String),
    /// No session has the id.
    SessionNotFound(String),
    /// The limit of active sessions is reached.
    MaxSessionsReached(usize),
    /// An active session already uses the workspace.
    SessionExists(String),
    /// The process could not be spawned (the system's message).
    SpawnFailed(String),
    /// The process failed.
    ProcessError(String),
    /// The workspace directory could not be created (the system's message).
    WorkspaceError(String),
}

impl SessionError {
    /// The error message.
    pub fn message(&self) -> (r: String)
        ensures
            match self {
                SessionError::WorkspaceNotFound(p) => r@ == "workspace does not exist: "@ + p@,
                SessionError::SessionNotFound(id) => r@ == "session not found: "@ + id@,
                SessionError::MaxSessionsReached(n) => r@ == "max sessions reached: "@ + crate::text::decimal(*n as nat),
                SessionError::SessionExists(w) => r@ == "session already exists for workspace: "@ + w@,
                SessionError::SpawnFailed(e) => r@ == "failed to spawn process: "@ + e@,
                SessionError::ProcessError(e) => r@ == "process error: "@ + e@,
                SessionError::WorkspaceError(e) => r@ == "workspace directory error: "@ + e@,
            },
    {
        match self {
            SessionError::WorkspaceNotFound(p) => owned("workspace does not exist: ").concat(p.as_str()),
            SessionError::SessionNotFound(id) => owned("session not found: ").concat(id.as_str()),
            SessionError::MaxSessionsReached(n) => {
                let d = u64_to_string(*n as u64);
                owned("max sessions reached: ").concat(d.as_str())
            },
            SessionError::SessionExists(w) => owned("session already exists for workspace: ").concat(w.as_str()),
            SessionError::SpawnFailed(e) => owned("failed to spawn process: ").concat(e.as_str()),
            SessionError::ProcessError(e) => owned("process error: ").concat(e.as_str()),
            SessionError::WorkspaceError(e) => owned("workspace directory error: ").concat(e.as_str()),
        }
    }
}

/// Whether no two sessions share an id.
pub open spec fn ids_unique(s: Seq<SessionInfo>) -> bool {
    forall|i: int, j: int| 0 <= i < s.len() && 0 <= j < s.len() && i != j ==> (#[trigger] s[i]).id@ != (#[trigger] s[j]).id@
}

/// Whether some session has the id.
pub open spec fn has_id(s: Seq<SessionInfo>, id: Seq<char>) -> bool {
    exists|i: int| 0 <= i < s.len() && (#[trigger] s[i]).id@ == id
}

/// The position of the session with the id (meaningful when there is one).
pub open spec fn index_of(s: Seq<SessionInfo>, id: Seq<char>) -> int {
    choose|i: int| 0 <= i < s.len() && (#[trigger] s[i]).id@ == id
}

/// In a table with unique ids, position `i` is where its id is found.
pub proof fn lemma_index_of(s: Seq<SessionInfo>, i: int)
    requires
        ids_unique(s),
        0 <= i < s.len(),
    ensures
        has_id(s, s[i].id@),
        index_of(s, s[i].id@) == i,
{
    let id = s[i].id@;
    assert(has_id(s, id));
    let c = index_of(s, id);
    if c != i {
        assert(s[c].id@ != s[i].id@);
    }
}

/// The number of active sessions.
pub open spec fn count_active(s: Seq<SessionInfo>) -> nat
    decreases s.len(),
{
    if s.len() == 0 {
        0
    } else {
        count_active(s.drop_last()) + if s.last().status.active() { 1nat } else { 0nat }
    }
}

/// Whether an active session uses the workspace.
pub open spec fn workspace_active(s: Seq<SessionInfo>, ws: Seq<char>) -> bool {
    exists|i: int| 0 <= i < s.len() && (#[trigger] s[i]).status.active() && s[i].workspace@ == ws
}

/// The active sessions, in order.
pub open spec fn active_sessions(s: Seq<SessionInfo>) -> Seq<SessionInfo> {
    s.filter(|e: SessionInfo| e.status.active())
}

/// The table with `info` stored: replacing the session of the same id, or added last.
pub open spec fn put_session(s: Seq<SessionInfo>, info: SessionInfo) -> Seq<SessionInfo> {
    if has_id(s, info.id@) {
        s.update(index_of(s, info.id@), info)
    } else {
        s.push(info)
    }
}

/// A session record running under `pid` since `now`.
pub open spec fn running_session(id: String, workspace: String, pid: u32, now: i64) -> SessionInfo {
    SessionInfo {
        id,
        workspace,
        status: SessionStatus::Running,
        pid: Some(pid),
        created_at: now,
        last_active: now,
        error: None,
    }
}

/// A session record whose process failed to start at `now`.
pub open spec fn failed_session(id: String, workspace: String, error: String, now: i64) -> SessionInfo {
    SessionInfo {
        id,
        workspace,
        status: SessionStatus::Error,
        pid: None,
        created_at: now,
        last_active: now,
        error: Some(error),
    }
}

/// The record marked stopped at `now`.
pub open spec fn stopped_session(e: SessionInfo, now: i64) -> SessionInfo {
    SessionInfo { status: SessionStatus::Stopped, pid: None, last_active: now, ..e }
}

/// The record marked failed with `error` at `now`.
pub open spec fn errored_session(e: SessionInfo, error: String, now: i64) -> SessionInfo {
    SessionInfo { status: SessionStatus::Error, pid: None, error: Some(error), last_active: now, ..e }
}

/// Largest age in whole seconds that chrono turns into a duration; a larger one
/// counts as no age at all.
pub const MAX_AGE_SECS: u64 = 9223372036854775;

/// The instant before which inactive sessions are dropped.
pub open spec fn cleanup_cutoff(now: int, max_age_secs: nat) -> int {
    if max_age_secs <= MAX_AGE_SECS { now - max_age_secs * 1000 } else { now }
}

/// Whether cleanup keeps a session.
pub open spec fn kept(e: SessionInfo, cutoff: int) -> bool {
    e.status.active() || e.last_active >= cutoff
}

/// A fresh eight-character session id, the first characters of a random UUID.
pub fn new_session_id() -> (r: String)
    ensures
        exists|b: Seq<u8>| b.len() == 16 && r@ == uuid_v4_text(b).subrange(0, 8),
        r@.len() == 8,
        forall|i: int| 0 <= i < 8 ==> is_uuid_char(#[trigger] r@[i]),
{
    let u = new_uuid();
    let cs = chars_of(u.as_str());
    let head = slice_chars(&cs, 0, 8);
    string_of(head.as_slice())
}

/// Manages coding sessions.
pub struct SessionManager {
    workspace_base: String,
    max_sessions: usize,
    sessions: Vec<SessionInfo>,
}

impl SessionManager {
    #[verifier::type_invariant]
    spec fn well_formed(self) -> bool {
        ids_unique(self.sessions@)
    }

    /// The sessions, in the order they were added.
    pub closed spec fn session_list(&self) -> Seq<SessionInfo> {
        self.sessions@
    }

    /// The base workspace directory.
    pub closed spec fn base(&self) -> Seq<char> {
        self.workspace_base@
    }

    /// The limit of active sessions.
    pub closed spec fn limit(&self) -> usize {
        self.max_sessions
    }

    /// A manager without sessions.
    pub fn new(workspace_base: &str, max_sessions: usize) -> (r: SessionManager)
        ensures
            r.session_list().len() == 0,
            r.base() == workspace_base@,
            r.limit() == max_sessions,
    {
        SessionManager { workspace_base: owned(workspace_base), max_sessions, sessions: Vec::new() }
    }

    /// The base workspace directory.
    pub fn workspace_base(&self) -> (r: &str)
        ensures
            r@ == self.base(),
    {
        self.workspace_base.as_str()
    }

    /// The limit of active sessions.
    pub fn max_sessions(&self) -> (r: usize)
        ensures
            r == self.limit(),
    {
        self.max_sessions
    }

    /// The directory of a workspace: an absolute path as given, a relative one
    /// under the base directory.
    pub fn workspace_path(&self, workspace: &str) -> (r: String)
        ensures
            r@ == path_join(self.base(), workspace@),
    {
        join_path(self.workspace_base.as_str(), workspace)
    }

    /// The position of the session with the id.
    fn position(&self, id: &str) -> (r: Option<usize>)
        ensures
            match r {
                Some(k) => k < self.session_list().len() && self.session_list()[k as int].id@ == id@
                    && has_id(self.session_list(), id@) && index_of(self.session_list(), id@) == k,
                None => !has_id(self.session_list(), id@),
            },
    {
        proof {
            use_type_invariant(self);
        }
        let mut i: usize = 0;
        while i < self.sessions.len()
            invariant
                i <= self.sessions.len(),
                ids_unique(self.sessions@),
                forall|j: int| 0 <= j < i ==> (#[trigger] self.sessions@[j]).id@ != id@,
            decreases self.sessions.len() - i,
        {
            if str_eq(self.sessions[i].id.as_str(), id) {
                proof {
                    lemma_index_of(self.sessions@, i as int);
                }
                return Some(i);
            }
            i = i + 1;
        }
        None
    }

    /// The number of active sessions.
    pub fn active_count(&self) -> (r: usize)
        ensures
            r == count_active(self.session_list()),
    {
        let mut n: usize = 0;
        let mut i: usize = 0;
        while i < self.sessions.len()
            invariant
                i <= self.sessions.len(),
                n == count_active(self.sessions@.take(i as int)),
                n <= i,
            decreases self.sessions.len() - i,
        {
            assert(self.sessions@.take(i + 1).drop_last() =~= self.sessions@.take(i as int));
            if self.sessions[i].status.is_active() {
                n = n + 1;
            }
            i = i + 1;
        }
        assert(self.sessions@.take(self.sessions@.len() as int) =~= self.sessions@);
        n
    }

    /// Whether a new session may start in the workspace: not when the limit of
    /// active sessions is reached, nor when an active session already uses it.
    pub fn check_new_session(&self, workspace: &str) -> (r: Result<(), SessionError>)
        ensures
            count_active(self.session_list()) >= self.limit() ==> (r matches Err(SessionError::MaxSessionsReached(m)) && m == self.limit()),
            count_active(self.session_list()) < self.limit() && workspace_active(self.session_list(), workspace@)
                ==> (r matches Err(SessionError::SessionExists(w)) && w@ == workspace@),
            count_active(self.session_list()) < self.limit() && !workspace_active(self.session_list(), workspace@)
                ==> r is Ok,
    {
        if self.active_count() >= self.max_sessions {
            return Err(SessionError::MaxSessionsReached(self.max_sessions));
        }
        let mut i: usize = 0;
        while i < self.sessions.len()
            invariant
                i <= self.sessions.len(),
                count_active(self.sessions@) < self.max_sessions,
                forall|j: int| 0 <= j < i ==> !((#[trigger] self.sessions@[j]).status.active() && self.sessions@[j].workspace@ == workspace@),
            decreases self.sessions.len() - i,
        {
            if self.sessions[i].status.is_active() && str_eq(self.sessions[i].workspace.as_str(), workspace) {
                return Err(SessionError::SessionExists(owned(workspace)));
            }
            i = i + 1;
        }
        Ok(())
    }

    /// Stores a record, replacing the session of the same id.
    fn put(&mut self, info: SessionInfo)
        ensures
            final(self).session_list() == put_session(old(self).session_list(), info),
            final(self).base() == old(self).base(),
            final(self).limit() == old(self).limit(),
    {
        proof {
            use_type_invariant(&*self);
        }
        let ghost s = self.sessions@;
        match self.position(info.id.as_str()) {
            Some(k) => {
                let mut list: Vec<SessionInfo> = Vec::new();
                std::mem::swap(&mut list, &mut self.sessions);
                list.set(k, info);
                proof {
                    let n = list@;
                    assert forall|a: int, b: int| 0 <= a < n.len() && 0 <= b < n.len() && a != b implies
                        (#[trigger] n[a]).id@ != (#[trigger] n[b]).id@ by {
                        if a != k && b != k {
                            assert(s[a].id@ != s[b].id@);
                        } else if a == k {
                            assert(s[a].id@ != s[b].id@);
                        } else {
                            assert(s[a].id@ != s[b].id@);
                        }
                    }
                }
                self.sessions = list;
            },
            None => {
                let mut list: Vec<SessionInfo> = Vec::new();
                std::mem::swap(&mut list, &mut self.sessions);
                let ghost id = info.id@;
                list.push(info);
                proof {
                    let n = list@;
                    assert forall|a: int, b: int| 0 <= a < n.len() && 0 <= b < n.len() && a != b implies
                        (#[trigger] n[a]).id@ != (#[trigger] n[b]).id@ by {
                        if a < s.len() && b < s.len() {
                            assert(s[a].id@ != s[b].id@);
                        } else if a < s.len() {
                            assert(n[a] == s[a]);
                            if s[a].id@ == id {
                                assert(has_id(s, id));
                            }
                        } else {
                            assert(n[b] == s[b]);
                            if s[b].id@ == id {
                                assert(has_id(s, id));
                            }
                        }
                    }
                }
                self.sessions = list;
            },
        }
    }

    /// Records a session whose process started under `pid` at `now`, and returns it.
    pub fn record_started_at(&mut self, id: String, workspace: String, pid: u32, now: i64) -> (r: SessionInfo)
        ensures
            final(self).session_list() == put_session(old(self).session_list(), running_session(id, workspace, pid, now)),
            same_session(r, running_session(id, workspace, pid, now)),
            final(self).base() == old(self).base(),
            final(self).limit() == old(self).limit(),
    {
        let mut info = SessionInfo::new_at(id, workspace, now);
        info.set_running_at(pid, now);
        let r = info.duplicate();
        self.put(info);
        r
    }

    /// Records a session whose process failed to spawn at `now`, and returns it.
    pub fn record_spawn_failed_at(&mut self, id: String, workspace: String, error: String, now: i64) -> (r: SessionInfo)
        ensures
            final(self).session_list() == put_session(old(self).session_list(), failed_session(id, workspace, error, now)),
            same_session(r, failed_session(id, workspace, error, now)),
            final(self).base() == old(self).base(),
            final(self).limit() == old(self).limit(),
    {
        let mut info = SessionInfo::new_at(id, workspace, now);
        info.set_error_at(error, now);
        let r = info.duplicate();
        self.put(info);
        r
    }

    /// Stops a session at `now`: an unknown id is an error; an inactive session is
    /// left as it is; an active one is marked stopped. The result tells whether a
    /// process was to be stopped.
    pub fn stop_session_at(&mut self, id: &str, now: i64) -> (r: Result<bool, SessionError>)
        ensures
            !has_id(old(self).session_list(), id@) ==> (r matches Err(SessionError::SessionNotFound(x)) && x@ == id@
                && final(self).session_list() == old(self).session_list()),
            has_id(old(self).session_list(), id@) ==> ({
                let s = old(self).session_list();
                let k = index_of(s, id@);
                &&& r == Ok::<bool, SessionError>(s[k].status.active())
                &&& s[k].status.active() ==> final(self).session_list() == s.update(k, stopped_session(s[k], now))
                &&& !s[k].status.active() ==> final(self).session_list() == s
            }),
            final(self).base() == old(self).base(),
            final(self).limit() == old(self).limit(),
    {
        proof {
            use_type_invariant(&*self);
        }
        let ghost s = self.sessions@;
        match self.position(id) {
            None => Err(SessionError::SessionNotFound(owned(id))),
            Some(k) => {
                if !self.sessions[k].status.is_active() {
                    return Ok(false);
                }
                let mut list: Vec<SessionInfo> = Vec::new();
                std::mem::swap(&mut list, &mut self.sessions);
                let mut e = list.remove(k);
                e.set_stopped_at(now);
                list.insert(k, e);
                proof {
                    let n = list@;
                    assert(n =~= s.update(k as int, stopped_session(s[k as int], now)));
                    assert forall|a: int, b: int| 0 <= a < n.len() && 0 <= b < n.len() && a != b implies
                        (#[trigger] n[a]).id@ != (#[trigger] n[b]).id@ by {
                        assert(s[a].id@ != s[b].id@);
                    }
                }
                self.sessions = list;
                Ok(true)
            },
        }
    }

    /// Applies the exit of a session's process seen at `now`: a successful exit
    /// stops the session, another marks it failed with the exit status.
    pub fn apply_exit_at(&mut self, id: &str, success: bool, exit_status: &str, now: i64)
        ensures
            !has_id(old(self).session_list(), id@) ==> final(self).session_list() == old(self).session_list(),
            has_id(old(self).session_list(), id@) ==> ({
                let s = old(self).session_list();
                let k = index_of(s, id@);
                &&& success ==> final(self).session_list() == s.update(k, stopped_session(s[k], now))
                &&& !success ==> final(self).session_list().len() == s.len()
                &&& !success ==> (forall|j: int| 0 <= j < s.len() && j != k ==> final(self).session_list()[j] == s[j])
                &&& !success ==> ({
                    let e = final(self).session_list()[k];
                    &&& e.status == SessionStatus::Error
                    &&& e.pid is None
                    &&& e.last_active == now
                    &&& e.id == s[k].id
                    &&& e.workspace == s[k].workspace
                    &&& e.created_at == s[k].created_at
                    &&& e.error matches Some(m) && m@ == "Process exited with status: "@ + exit_status@
                })
            }),
            final(self).base() == old(self).base(),
            final(self).limit() == old(self).limit(),
    {
        proof {
            use_type_invariant(&*self);
        }
        let ghost s = self.sessions@;
        match self.position(id) {
            None => {},
            Some(k) => {
                let mut list: Vec<SessionInfo> = Vec::new();
                std::mem::swap(&mut list, &mut self.sessions);
                let mut e = list.remove(k);
                if success {
                    e.set_stopped_at(now);
                } else {
                    let msg = owned("Process exited with status: ").concat(exit_status);
                    e.set_error_at(msg, now);
                }
                list.insert(k, e);
                proof {
                    let n = list@;
                    if success {
                        assert(n =~= s.update(k as int, stopped_session(s[k as int], now)));
                    }
                    assert forall|j: int| 0 <= j < s.len() && j != k implies n[j] == s[j] by {
                        if j < k {
                        } else {
                        }
                    }
                    assert forall|a: int, b: int| 0 <= a < n.len() && 0 <= b < n.len() && a != b implies
                        (#[trigger] n[a]).id@ != (#[trigger] n[b]).id@ by {
                        assert(s[a].id@ != s[b].id@);
                    }
                }
                self.sessions = list;
            },
        }
    }

    /// A copy of the session with the id.
    pub fn get_session(&self, id: &str) -> (r: Option<SessionInfo>)
        ensures
            has_id(self.session_list(), id@) ==> r is Some
                && same_session(r->0, self.session_list()[index_of(self.session_list(), id@)]),
            !has_id(self.session_list(), id@) ==> r is None,
    {
        match self.position(id) {
            Some(k) => Some(self.sessions[k].duplicate()),
            None => None,
        }
    }

    /// Copies of all sessions.
    pub fn list_sessions(&self) -> (r: Vec<SessionInfo>)
        ensures
            r@.len() == self.session_list().len(),
            forall|i: int| 0 <= i < r@.len() ==> same_session(#[trigger] r@[i], self.session_list()[i]),
    {
        let mut out: Vec<SessionInfo> = Vec::new();
        let mut i: usize = 0;
        while i < self.sessions.len()
            invariant
                i <= self.sessions.len(),
                out@.len() == i,
                forall|j: int| 0 <= j < i ==> same_session(#[trigger] out@[j], self.sessions@[j]),
            decreases self.sessions.len() - i,
        {
            out.push(self.sessions[i].duplicate());
            i = i + 1;
        }
        out
    }

    /// Copies of the active sessions, in order.
    pub fn list_active_sessions(&self) -> (r: Vec<SessionInfo>)
        ensures
            r@.len() == active_sessions(self.session_list()).len(),
            forall|i: int| 0 <= i < r@.len() ==> same_session(#[trigger] r@[i], active_sessions(self.session_list())[i]),
    {
        let ghost s = self.sessions@;
        let mut out: Vec<SessionInfo> = Vec::new();
        let mut i: usize = 0;
        while i < self.sessions.len()
            invariant
                i <= self.sessions.len(),
                s == self.sessions@,
                out@.len() == active_sessions(s.take(i as int)).len(),
                forall|j: int| 0 <= j < out@.len() ==> same_session(#[trigger] out@[j], active_sessions(s.take(i as int))[j]),
            decreases self.sessions.len() - i,
        {
            proof {
                assert(s.take(i + 1).drop_last() =~= s.take(i as int));
                reveal(Seq::filter);
            }
            if self.sessions[i].status.is_active() {
                out.push(self.sessions[i].duplicate());
            }
            i = i + 1;
        }
        assert(s.take(s.len() as int) =~= s);
        out
    }

    /// Drops the inactive sessions last active before `now` less `max_age_secs`.
    pub fn cleanup_old_sessions_at(&mut self, now: i64, max_age_secs: u64)
        requires
            in_range(cleanup_cutoff(now as int, max_age_secs as nat)),
        ensures
            final(self).session_list() == old(self).session_list().filter(
                |e: SessionInfo| kept(e, cleanup_cutoff(now as int, max_age_secs as nat))),
            final(self).base() == old(self).base(),
            final(self).limit() == old(self).limit(),
    {
        proof {
            use_type_invariant(&*self);
        }
        let cutoff: i64 = if max_age_secs <= MAX_AGE_SECS { now - (max_age_secs as i64) * 1000 } else { now };
        let ghost c = cleanup_cutoff(now as int, max_age_secs as nat);
        let ghost s = self.sessions@;
        let mut list: Vec<SessionInfo> = Vec::new();
        std::mem::swap(&mut list, &mut self.sessions);
        let mut out: Vec<SessionInfo> = Vec::new();
        let ghost mut k: int = 0;
        while list.len() > 0
            invariant
                0 <= k <= s.len(),
                list@ == s.skip(k),
                out@ == s.take(k).filter(|e: SessionInfo| kept(e, c)),
                cutoff == c,
                ids_unique(s),
                ids_unique(out@),
                forall|a: int| 0 <= a < out@.len() ==> exists|j: int| 0 <= j < k && #[trigger] out@[a] == s[j],
            decreases list.len(),
        {
            let e = list.remove(0);
            proof {
                assert(s.take(k + 1).drop_last() =~= s.take(k));
                assert(s.take(k + 1).last() == s[k]);
                reveal(Seq::filter);
            }
            let ghost before = out@;
            if e.status.is_active() || e.last_active >= cutoff {
                out.push(e);
                proof {
                    assert forall|a: int, b: int| 0 <= a < out@.len() && 0 <= b < out@.len() && a != b implies
                        (#[trigger] out@[a]).id@ != (#[trigger] out@[b]).id@ by {
                        if a < before.len() && b < before.len() {
                            assert(before[a].id@ != before[b].id@);
                        } else if a < before.len() {
                            let j = choose|j: int| 0 <= j < k && #[trigger] before[a] == s[j];
                            assert(s[j].id@ != s[k].id@);
                        } else {
                            let j = choose|j: int| 0 <= j < k && #[trigger] before[b] == s[j];
                            assert(s[j].id@ != s[k].id@);
                        }
                    }
                    assert forall|a: int| 0 <= a < out@.len() implies exists|j: int| 0 <= j < k + 1 && #[trigger] out@[a] == s[j] by {
                        if a < before.len() {
                            let j = choose|j: int| 0 <= j < k && #[trigger] before[a] == s[j];
                            assert(out@[a] == s[j]);
                        } else {
                            assert(out@[a] == s[k]);
                        }
                    }
                }
            }
            proof {
                assert(list@ =~= s.skip(k + 1));
                k = k + 1;
            }
        }
        proof {
            assert(s.take(k) =~= s);
        }
        self.sessions = out;
    }
}

// ---------------------------------------------------------------------------
// Laws
// ---------------------------------------------------------------------------

/// Replacing one session changes the active count by what the two records
/// contribute.
pub proof fn lemma_count_update(s: Seq<SessionInfo>, k: int, e: SessionInfo)
    requires
        0 <= k < s.len(),
    ensures
        count_active(s.update(k, e)) == count_active(s) - (if s[k].status.active() { 1int } else { 0int })
            + (if e.status.active() { 1int } else { 0int }),
    decreases s.len(),
{
    let u = s.update(k, e);
    if k == s.len() - 1 {
        assert(u.drop_last() =~= s.drop_last());
    } else {
        lemma_count_update(s.drop_last(), k, e);
        assert(u.drop_last() =~= s.drop_last().update(k, e));
    }
}

/// Starting a session under a new id adds one active session.
pub proof fn law_start_adds_active(s: Seq<SessionInfo>, id: String, workspace: String, pid: u32, now: i64)
    requires
        !has_id(s, id@),
    ensures
        count_active(put_session(s, running_session(id, workspace, pid, now))) == count_active(s) + 1,
{
    let t = s.push(running_session(id, workspace, pid, now));
    assert(t.drop_last() =~= s);
}

/// Whether no two active sessions share a workspace.
pub open spec fn one_active_per_workspace(s: Seq<SessionInfo>) -> bool {
    forall|i: int, j: int|
        0 <= i < s.len() && 0 <= j < s.len() && i != j && (#[trigger] s[i]).status.active()
            && (#[trigger] s[j]).status.active() ==> s[i].workspace@ != s[j].workspace@
}

/// A start that the admission check lets through (fewer active sessions than the
/// limit, none in the workspace) under a new id keeps within the limit and keeps
/// one active session per workspace.
pub proof fn law_admitted_start_keeps_limits(
    s: Seq<SessionInfo>,
    limit: usize,
    id: String,
    workspace: String,
    pid: u32,
    now: i64,
)
    requires
        count_active(s) < limit,
        !workspace_active(s, workspace@),
        !has_id(s, id@),
        one_active_per_workspace(s),
    ensures
        count_active(put_session(s, running_session(id, workspace, pid, now))) <= limit,
        one_active_per_workspace(put_session(s, running_session(id, workspace, pid, now))),
        workspace_active(put_session(s, running_session(id, workspace, pid, now)), workspace@),
{
    law_start_adds_active(s, id, workspace, pid, now);
    let e = running_session(id, workspace, pid, now);
    let t = s.push(e);
    assert(put_session(s, e) == t);
    assert forall|i: int, j: int|
        0 <= i < t.len() && 0 <= j < t.len() && i != j && (#[trigger] t[i]).status.active()
            && (#[trigger] t[j]).status.active() implies t[i].workspace@ != t[j].workspace@ by {
        if i == s.len() as int {
            assert(!(s[j].status.active() && s[j].workspace@ == workspace@));
        } else if j == s.len() as int {
            assert(!(s[i].status.active() && s[i].workspace@ == workspace@));
        } else {
            assert(t[i] == s[i] && t[j] == s[j]);
        }
    }
    assert(t[s.len() as int].status.active());
}

/// Stopping an active session leaves it inactive, with one active session fewer,
/// so stopping it again changes nothing.
pub proof fn law_stop_deactivates(s: Seq<SessionInfo>, id: Seq<char>, now: i64)
    requires
        ids_unique(s),
        has_id(s, id),
        s[index_of(s, id)].status.active(),
    ensures
        ({
            let k = index_of(s, id);
            let t = s.update(k, stopped_session(s[k], now));
            &&& has_id(t, id)
            &&& index_of(t, id) == k
            &&& !t[k].status.active()
            &&& count_active(t) == count_active(s) - 1
        }),
{
    let k = index_of(s, id);
    let t = s.update(k, stopped_session(s[k], now));
    assert(ids_unique(t)) by {
        assert forall|a: int, b: int| 0 <= a < t.len() && 0 <= b < t.len() && a != b implies
            (#[trigger] t[a]).id@ != (#[trigger] t[b]).id@ by {
            assert(s[a].id@ != s[b].id@);
        }
    }
    lemma_index_of(t, k);
    lemma_count_update(s, k, stopped_session(s[k], now));
}

/// Where the coding tool's program is looked for, in order: under the home
/// directory (an empty path when it is unknown) in `.local/bin` and
/// `Library/pnpm`, then in Homebrew's, the local and the system binary directories.
pub open spec fn claude_candidates(home: Option<Seq<char>>, program: Seq<char>) -> Seq<Seq<char>> {
    seq![
        match home { Some(h) => path_join(path_join(h, ".local/bin"@), program), None => Seq::empty() },
        match home { Some(h) => path_join(path_join(h, "Library/pnpm"@), program), None => Seq::empty() },
        path_join("/opt/homebrew/bin"@, program),
        path_join("/usr/local/bin"@, program),
        path_join("/usr/bin"@, program),
    ]
}

/// The places the coding tool's program is looked for.
pub fn claude_binary_candidates(home: Option<&str>, program: &str) -> (r: Vec<String>)
    ensures
        views(r@) == claude_candidates(match home { Some(h) => Some(h@), None => None }, program@),
{
    let mut out: Vec<String> = Vec::new();
    match home {
        Some(h) => {
            let local = join_path(h, ".local/bin");
            out.push(join_path(local.as_str(), program));
            let pnpm = join_path(h, "Library/pnpm");
            out.push(join_path(pnpm.as_str(), program));
        },
        None => {
            out.push(String::new());
            out.push(String::new());
        },
    }
    out.push(join_path("/opt/homebrew/bin", program));
    out.push(join_path("/usr/local/bin", program));
    out.push(join_path("/usr/bin", program));
    assert(views(out@) =~= claude_candidates(match home { Some(h) => Some(h@), None => None }, program@));
    out
}

/// The coding tool's program to run: the first candidate that exists, else what the
/// search of `PATH` found; when that failed too, the error says the program was not found.
pub open spec fn claude_binary_choice(candidates: Seq<Seq<char>>, exists: Seq<bool>, on_path: Result<Seq<char>, Seq<char>>) -> Result<Seq<char>, Seq<char>> {
    match first_existing(candidates, exists) {
        Some(p) => Ok(p),
        None => match on_path {
            Ok(p) => Ok(p),
            Err(e) => Err("coding tool binary not found: "@ + e),
        },
    }
}

/// Chooses the coding tool's program from the candidates (with whether each exists) and
/// the outcome of the search of `PATH`.
pub fn choose_claude_binary(candidates: &Vec<String>, exists: &Vec<bool>, on_path: Result<String, String>) -> (r: Result<String, String>)
    requires
        candidates@.len() == exists@.len(),
    ensures
        claude_binary_choice(views(candidates@), exists@, match on_path { Ok(p) => Ok(p@), Err(e) => Err(e@) })
            == match r { Ok(p) => Ok(p@), Err(e) => Err(e@) },
{
    let ghost cs = views(candidates@);
    assert(cs.skip(0) =~= cs);
    assert(exists@.skip(0) =~= exists@);
    let mut i: usize = 0;
    while i < candidates.len()
        invariant
            i <= candidates.len(),
            candidates@.len() == exists@.len(),
            cs == views(candidates@),
            first_existing(cs, exists@) == first_existing(cs.skip(i as int), exists@.skip(i as int)),
        decreases candidates.len() - i,
    {
        if exists[i] {
            assert(cs.skip(i as int)[0] == candidates@[i as int]@);
            return Ok(candidates[i].clone());
        }
        assert(cs.skip(i as int).skip(1) =~= cs.skip(i + 1));
        assert(exists@.skip(i as int).skip(1) =~= exists@.skip(i + 1));
        i = i + 1;
    }
    match on_path {
        Ok(p) => Ok(p),
        Err(e) => Err(owned("coding tool binary not found: ").concat(e.as_str())),
    }
}

} // verus!
