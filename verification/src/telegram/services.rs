//! The bot's answers about containers and media.

use vstd::prelude::*;
use crate::media::jellyfin::{format_ticks, ticks_text};
use crate::media::types::{MediaLibrary, MediaStatus, PlaybackSession};
use crate::server::types::{ContainerInfo, ContainerStatus};
use crate::telegram::commands::{ContainerRequest, MediaRequest};
use crate::telegram::reply::{append_lines, lines_of, listing, under_heading};
use crate::text::{byte_len, byte_prefix, cuttable, decimal, join, join_seq, owned, prefix_bytes, u64_to_string, views};

verus! {

/// The most log text, in bytes, that an answer carries.
pub const MAX_LOG_BYTES: usize = 4000;

/// A failure: what failed, a colon, and the error.
pub open spec fn failure_text(what: Seq<char>, e: Seq<char>) -> Seq<char> {
    what + ": "@ + e
}

pub(crate) fn failure(what: &str, e: &str) -> (r: String)
    ensures
        r@ == failure_text(what@, e@),
{
    owned(what).concat(": ").concat(e)
}

/// Log text in a fenced block under a title; past [`MAX_LOG_BYTES`] bytes it is cut
/// there and marked as truncated.
pub open spec fn fenced_logs(title: Seq<char>, logs: Seq<char>) -> Seq<char> {
    if byte_len(logs) > MAX_LOG_BYTES {
        title + " (truncated):\n```\n"@ + byte_prefix(logs, MAX_LOG_BYTES) + "...\n```"@
    } else {
        title + ":\n```\n"@ + logs + "\n```"@
    }
}

fn fence_logs(title: &str, logs: &str) -> (r: String)
    requires
        cuttable(logs@, MAX_LOG_BYTES),
    ensures
        r@ == fenced_logs(title@, logs@),
{
    if logs.len() > MAX_LOG_BYTES {
        owned(title).concat(" (truncated):\n```\n").concat(prefix_bytes(logs, MAX_LOG_BYTES).as_str()).concat(
            "...\n```",
        )
    } else {
        owned(title).concat(":\n```\n").concat(logs).concat("\n```")
    }
}

// ---------------------------------------------------------------------------
// Containers
// ---------------------------------------------------------------------------

/// The short word for a container status.
pub open spec fn container_glyph(s: ContainerStatus) -> Seq<char> {
    match s {
        ContainerStatus::Running => "RUN"@,
        ContainerStatus::Exited => "EXIT"@,
        ContainerStatus::Paused => "PAUSE"@,
        _ => "?"@,
    }
}

/// A container's line: status word, name and image.
pub open spec fn container_line_text(c: ContainerInfo) -> Seq<char> {
    "  "@ + container_glyph(c.status) + " "@ + c.name@ + " ("@ + c.image@ + ")"@
}

fn container_line(c: &ContainerInfo) -> (r: String)
    ensures
        r@ == container_line_text(*c),
{
    let word = match c.status {
        ContainerStatus::Running => "RUN",
        ContainerStatus::Exited => "EXIT",
        ContainerStatus::Paused => "PAUSE",
        _ => "?",
    };
    owned("  ").concat(word).concat(" ").concat(c.name.as_str()).concat(" (").concat(c.image.as_str()).concat(")")
}

/// The `/containers` answer for a listing, or for the error that listing gave.
pub open spec fn containers_text(listed: Result<Seq<ContainerInfo>, Seq<char>>) -> Seq<char> {
    match listed {
        Err(e) => failure_text("Error listing containers"@, e),
        Ok(cs) => if cs.len() == 0 {
            "No containers found."@
        } else {
            listing("Containers:"@, Seq::new(cs.len(), |i: int| container_line_text(cs[i])))
        },
    }
}

/// Formats the `/containers` answer.
pub fn format_containers(listed: &Result<Vec<ContainerInfo>, String>) -> (r: String)
    ensures
        r@ == containers_text(match listed {
            Ok(cs) => Ok(cs@),
            Err(e) => Err(e@),
        }),
{
    match listed {
        Err(e) => failure("Error listing containers", e.as_str()),
        Ok(cs) => {
            if cs.len() == 0 {
                return owned("No containers found.");
            }
            let body = lines_of(cs, cs.len(), container_line);
            assert(views(body@) =~= Seq::new(cs@.len(), |i: int| container_line_text(cs@[i])));
            under_heading("Containers:", body)
        },
    }
}

/// The `/container` answer: the usage text, or what came of the operation. The
/// payload of a success is the log text for `Logs` and is not used otherwise.
pub open spec fn container_reply_text(req: ContainerRequest, outcome: Result<Seq<char>, Seq<char>>) -> Seq<char> {
    match req {
        ContainerRequest::Usage(u) => u@,
        ContainerRequest::Start(n) => match outcome {
            Ok(_) => "Started container: "@ + n@,
            Err(e) => failure_text("Error starting "@ + n@, e),
        },
        ContainerRequest::Stop(n) => match outcome {
            Ok(_) => "Stopped container: "@ + n@,
            Err(e) => failure_text("Error stopping "@ + n@, e),
        },
        ContainerRequest::Restart(n) => match outcome {
            Ok(_) => "Restarted container: "@ + n@,
            Err(e) => failure_text("Error restarting "@ + n@, e),
        },
        ContainerRequest::Logs { name, .. } => match outcome {
            Ok(logs) => if logs.len() == 0 {
                "No logs for container: "@ + name@
            } else {
                fenced_logs("Logs for "@ + name@, logs)
            },
            Err(e) => failure_text("Error getting logs for "@ + name@, e),
        },
    }
}

/// Formats the `/container` answer.
pub fn container_reply(req: &ContainerRequest, outcome: &Result<String, String>) -> (r: String)
    requires
        (req is Logs && outcome is Ok) ==> cuttable(outcome->Ok_0@, MAX_LOG_BYTES),
    ensures
        r@ == container_reply_text(*req, match outcome {
            Ok(s) => Ok(s@),
            Err(e) => Err(e@),
        }),
{
    match req {
        ContainerRequest::Usage(u) => owned(u.as_str()),
        ContainerRequest::Start(n) => match outcome {
            Ok(_) => owned("Started container: ").concat(n.as_str()),
            Err(e) => failure(owned("Error starting ").concat(n.as_str()).as_str(), e.as_str()),
        },
        ContainerRequest::Stop(n) => match outcome {
            Ok(_) => owned("Stopped container: ").concat(n.as_str()),
            Err(e) => failure(owned("Error stopping ").concat(n.as_str()).as_str(), e.as_str()),
        },
        ContainerRequest::Restart(n) => match outcome {
            Ok(_) => owned("Restarted container: ").concat(n.as_str()),
            Err(e) => failure(owned("Error restarting ").concat(n.as_str()).as_str(), e.as_str()),
        },
        ContainerRequest::Logs { name, .. } => match outcome {
            Ok(logs) => {
                if logs.as_str().is_empty() {
                    owned("No logs for container: ").concat(name.as_str())
                } else {
                    fence_logs(owned("Logs for ").concat(name.as_str()).as_str(), logs.as_str())
                }
            },
            Err(e) => failure(owned("Error getting logs for ").concat(name.as_str()).as_str(), e.as_str()),
        },
    }
}

// ---------------------------------------------------------------------------
// Media
// ---------------------------------------------------------------------------

/// The lines of the media status answer, after its heading.
pub open spec fn media_status_lines(s: MediaStatus) -> Seq<Seq<char>> {
    seq![
        "  Container: "@ + (if s.container_running { "running"@ } else { "stopped"@ }),
        "  API: "@ + (if s.api_reachable { "reachable"@ } else { "unreachable"@ }),
    ] + match s.server {
        Some(srv) => seq![
            "  Server: "@ + srv.name@ + " v"@ + srv.version@,
            "  HW Transcode: "@ + (if srv.hw_transcode_available { "available"@ } else { "not available"@ }),
        ],
        None => Seq::empty(),
    } + seq![
        "  Libraries: "@ + decimal(s.library_count as nat),
        "  Active Sessions: "@ + decimal(s.active_sessions as nat),
    ] + if s.library_paths.len() == 0 {
        Seq::empty()
    } else {
        seq!["  Paths:"@] + Seq::new(s.library_paths@.len(), |i: int| "    "@ + s.library_paths@[i]@)
    }
}

/// The `/media status` answer.
pub open spec fn media_status_text(s: MediaStatus) -> Seq<char> {
    listing("Media Status:"@, media_status_lines(s))
}

fn indented_path(p: &String) -> (r: String)
    ensures
        r@ == "    "@ + p@,
{
    owned("    ").concat(p.as_str())
}

/// Formats the `/media status` answer.
pub fn format_media_status(s: &MediaStatus) -> (r: String)
    ensures
        r@ == media_status_text(*s),
{
    let mut body: Vec<String> = Vec::new();
    body.push(owned("  Container: ").concat(if s.container_running { "running" } else { "stopped" }));
    body.push(owned("  API: ").concat(if s.api_reachable { "reachable" } else { "unreachable" }));
    let ghost head = views(body@);
    match &s.server {
        Some(srv) => {
            body.push(owned("  Server: ").concat(srv.name.as_str()).concat(" v").concat(srv.version.as_str()));
            body.push(
                owned("  HW Transcode: ").concat(
                    if srv.hw_transcode_available { "available" } else { "not available" },
                ),
            );
        },
        None => {},
    }
    let ghost with_server = views(body@);
    assert(with_server =~= seq![
        "  Container: "@ + (if s.container_running { "running"@ } else { "stopped"@ }),
        "  API: "@ + (if s.api_reachable { "reachable"@ } else { "unreachable"@ }),
    ] + match s.server {
        Some(srv) => seq![
            "  Server: "@ + srv.name@ + " v"@ + srv.version@,
            "  HW Transcode: "@ + (if srv.hw_transcode_available { "available"@ } else { "not available"@ }),
        ],
        None => Seq::empty(),
    });
    body.push(owned("  Libraries: ").concat(u64_to_string(s.library_count as u64).as_str()));
    body.push(owned("  Active Sessions: ").concat(u64_to_string(s.active_sessions as u64).as_str()));
    let ghost counted = views(body@);
    assert(counted =~= with_server + seq![
        "  Libraries: "@ + decimal(s.library_count as nat),
        "  Active Sessions: "@ + decimal(s.active_sessions as nat),
    ]);
    if s.library_paths.len() > 0 {
        body.push(owned("  Paths:"));
        let paths = lines_of(&s.library_paths, s.library_paths.len(), indented_path);
        let base = body.len();
        let mut i: usize = 0;
        while i < paths.len()
            invariant
                i <= paths.len(),
                paths.len() == s.library_paths.len(),
                base == counted.len() + 1,
                body.len() == base + i,
                views(body@).take(base as int) == counted + seq!["  Paths:"@],
                forall|k: int| 0 <= k < paths.len() ==> (#[trigger] paths@[k])@ == "    "@ + s.library_paths@[k]@,
                forall|k: int| 0 <= k < i ==> (#[trigger] body@[base + k])@ == "    "@ + s.library_paths@[k]@,
            decreases paths.len() - i,
        {
            body.push(paths[i].clone());
            assert(views(body@).take(base as int) =~= views(body@).take((base + i + 1) as int).take(base as int));
            i = i + 1;
        }
        let ghost want = counted + (seq!["  Paths:"@] + Seq::new(s.library_paths@.len(), |k: int| "    "@ + s.library_paths@[k]@));
        assert(views(body@) =~= want) by {
            assert forall|k: int| 0 <= k < body.len() implies views(body@)[k] == want[k] by {
                if k < base {
                    assert(views(body@).take(base as int)[k] == views(body@)[k]);
                } else {
                    assert(body@[base + (k - base)]@ == "    "@ + s.library_paths@[k - base]@);
                }
            }
        }
        assert(views(body@) =~= media_status_lines(*s));
    } else {
        assert(counted + Seq::<Seq<char>>::empty() =~= counted);
        assert(views(body@) =~= media_status_lines(*s));
    }
    under_heading("Media Status:", body)
}

/// The lines of one library: its name and content type, then each of its paths.
pub open spec fn library_lines(l: MediaLibrary) -> Seq<Seq<char>> {
    seq!["  "@ + l.name@ + " ("@ + l.content_type@ + ")"@] + Seq::new(l.paths@.len(), |k: int| "    "@ + l.paths@[k]@)
}

/// The lines of each library in turn.
pub open spec fn libraries_lines(ls: Seq<MediaLibrary>) -> Seq<Seq<char>>
    decreases ls.len(),
{
    if ls.len() == 0 {
        Seq::empty()
    } else {
        libraries_lines(ls.drop_last()) + library_lines(ls.last())
    }
}

/// The `/media libraries` answer for a listing, or for the error it gave.
pub open spec fn libraries_text(listed: Result<Seq<MediaLibrary>, Seq<char>>) -> Seq<char> {
    match listed {
        Err(e) => failure_text("Error fetching libraries"@, e),
        Ok(ls) => if ls.len() == 0 {
            "No libraries configured."@
        } else {
            listing("Libraries:"@, libraries_lines(ls))
        },
    }
}

fn library_block(l: &MediaLibrary) -> (r: Vec<String>)
    ensures
        views(r@) == library_lines(*l),
{
    let mut out: Vec<String> = Vec::new();
    out.push(owned("  ").concat(l.name.as_str()).concat(" (").concat(l.content_type.as_str()).concat(")"));
    let paths = lines_of(&l.paths, l.paths.len(), indented_path);
    assert(views(paths@) =~= Seq::new(l.paths@.len(), |k: int| "    "@ + l.paths@[k]@));
    append_lines(&mut out, &paths);
    out
}

/// Formats the `/media libraries` answer.
pub fn format_media_libraries(listed: &Result<Vec<MediaLibrary>, String>) -> (r: String)
    ensures
        r@ == libraries_text(match listed {
            Ok(ls) => Ok(ls@),
            Err(e) => Err(e@),
        }),
{
    match listed {
        Err(e) => failure("Error fetching libraries", e.as_str()),
        Ok(ls) => {
            if ls.len() == 0 {
                return owned("No libraries configured.");
            }
            let mut body: Vec<String> = Vec::new();
            let mut i: usize = 0;
            while i < ls.len()
                invariant
                    i <= ls.len(),
                    views(body@) == libraries_lines(ls@.take(i as int)),
                decreases ls.len() - i,
            {
                let block = library_block(&ls[i]);
                append_lines(&mut body, &block);
                assert(ls@.take(i + 1).drop_last() =~= ls@.take(i as int));
                i = i + 1;
            }
            assert(ls@.take(ls.len() as int) =~= ls@);
            under_heading("Libraries:", body)
        },
    }
}

/// A playback session's line: who plays what where, with position, pause and
/// transcoding when known.
pub open spec fn session_line_text(s: PlaybackSession) -> Seq<char> {
    "  "@ + s.user@ + " on "@ + s.client@ + ": "@ + s.item_name@ + match (s.position_ticks, s.duration_ticks) {
        (Some(pos), Some(dur)) => if dur > 0 {
            " ["@ + ticks_text(pos as int) + "/"@ + ticks_text(dur as int) + "]"@
        } else {
            Seq::empty()
        },
        _ => Seq::empty(),
    } + (if s.is_paused { " (paused)"@ } else { Seq::empty() }) + match s.transcode_info {
        Some(t) => " ["@ + t@ + "]"@,
        None => Seq::empty(),
    }
}

fn session_line(s: &PlaybackSession) -> (r: String)
    ensures
        r@ == session_line_text(*s),
{
    let progress = match (s.position_ticks, s.duration_ticks) {
        (Some(pos), Some(dur)) => if dur > 0 {
            owned(" [").concat(format_ticks(pos).as_str()).concat("/").concat(format_ticks(dur).as_str()).concat("]")
        } else {
            String::new()
        },
        _ => String::new(),
    };
    let pause = if s.is_paused { " (paused)" } else { "" };
    let transcode = match &s.transcode_info {
        Some(t) => owned(" [").concat(t.as_str()).concat("]"),
        None => String::new(),
    };
    proof { reveal_strlit(""); }
    owned("  ").concat(s.user.as_str()).concat(" on ").concat(s.client.as_str()).concat(": ").concat(
        s.item_name.as_str(),
    ).concat(progress.as_str()).concat(pause).concat(transcode.as_str())
}

/// The `/media sessions` answer for a listing, or for the error it gave.
pub open spec fn sessions_text(listed: Result<Seq<PlaybackSession>, Seq<char>>) -> Seq<char> {
    match listed {
        Err(e) => failure_text("Error fetching sessions"@, e),
        Ok(ss) => if ss.len() == 0 {
            "No active playback sessions."@
        } else {
            listing("Active Sessions:"@, Seq::new(ss.len(), |i: int| session_line_text(ss[i])))
        },
    }
}

/// Formats the `/media sessions` answer.
pub fn format_media_sessions(listed: &Result<Vec<PlaybackSession>, String>) -> (r: String)
    ensures
        r@ == sessions_text(match listed {
            Ok(ss) => Ok(ss@),
            Err(e) => Err(e@),
        }),
{
    match listed {
        Err(e) => failure("Error fetching sessions", e.as_str()),
        Ok(ss) => {
            if ss.len() == 0 {
                return owned("No active playback sessions.");
            }
            let body = lines_of(ss, ss.len(), session_line);
            assert(views(body@) =~= Seq::new(ss@.len(), |i: int| session_line_text(ss@[i])));
            under_heading("Active Sessions:", body)
        },
    }
}

/// Whether a `/media` request is an operation on the server rather than a report.
pub open spec fn is_media_operation(req: MediaRequest) -> bool {
    !(req is Status || req is Libraries || req is Sessions)
}

/// The answer to a `/media` operation: the usage text, or what came of it. The
/// payload of a success is the log text for `Logs` and is not used otherwise.
pub open spec fn media_reply_text(req: MediaRequest, container: Seq<char>, outcome: Result<Seq<char>, Seq<char>>) -> Seq<char> {
    match req {
        MediaRequest::Scan => match outcome {
            Ok(_) => "Library scan started."@,
            Err(e) => failure_text("Error triggering scan"@, e),
        },
        MediaRequest::Start => match outcome {
            Ok(_) => "Started Jellyfin container: "@ + container,
            Err(e) => failure_text("Error starting Jellyfin"@, e),
        },
        MediaRequest::Stop => match outcome {
            Ok(_) => "Stopped Jellyfin container: "@ + container,
            Err(e) => failure_text("Error stopping Jellyfin"@, e),
        },
        MediaRequest::Restart => match outcome {
            Ok(_) => "Restarted Jellyfin container: "@ + container,
            Err(e) => failure_text("Error restarting Jellyfin"@, e),
        },
        MediaRequest::Logs(_) => match outcome {
            Ok(logs) => if logs.len() == 0 { "No Jellyfin logs."@ } else { fenced_logs("Jellyfin logs"@, logs) },
            Err(e) => failure_text("Error getting logs"@, e),
        },
        _ => "Usage: /media [status|libraries|sessions|scan|start|stop|restart|logs]"@,
    }
}

/// Formats the answer to a `/media` operation on the container named `container`.
pub fn media_reply(req: &MediaRequest, container: &str, outcome: &Result<String, String>) -> (r: String)
    requires
        is_media_operation(*req),
        (req is Logs && outcome is Ok) ==> cuttable(outcome->Ok_0@, MAX_LOG_BYTES),
    ensures
        r@ == media_reply_text(*req, container@, match outcome {
            Ok(s) => Ok(s@),
            Err(e) => Err(e@),
        }),
{
    match req {
        MediaRequest::Scan => match outcome {
            Ok(_) => owned("Library scan started."),
            Err(e) => failure("Error triggering scan", e.as_str()),
        },
        MediaRequest::Start => match outcome {
            Ok(_) => owned("Started Jellyfin container: ").concat(container),
            Err(e) => failure("Error starting Jellyfin", e.as_str()),
        },
        MediaRequest::Stop => match outcome {
            Ok(_) => owned("Stopped Jellyfin container: ").concat(container),
            Err(e) => failure("Error stopping Jellyfin", e.as_str()),
        },
        MediaRequest::Restart => match outcome {
            Ok(_) => owned("Restarted Jellyfin container: ").concat(container),
            Err(e) => failure("Error restarting Jellyfin", e.as_str()),
        },
        MediaRequest::Logs(_) => match outcome {
            Ok(logs) => if logs.as_str().is_empty() {
                owned("No Jellyfin logs.")
            } else {
                fence_logs("Jellyfin logs", logs.as_str())
            },
            Err(e) => failure("Error getting logs", e.as_str()),
        },
        _ => owned("Usage: /media [status|libraries|sessions|scan|start|stop|restart|logs]"),
    }
}

} // verus!
