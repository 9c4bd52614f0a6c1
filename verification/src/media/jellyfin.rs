//! Reading Jellyfin's replies into the module's records, and rendering play times.
//!
//! The HTTP requests are the caller's; it hands over the decoded replies.

use vstd::prelude::*;
use crate::media::types::{
    JellyfinNowPlayingItem, JellyfinPlayState, JellyfinSession, JellyfinSessionTranscoding,
    JellyfinSystemInfo, JellyfinVirtualFolder, MediaLibrary, PlaybackSession, ServerInfo,
};
use crate::text::{
    clone_strings, decimal, owned, pad2, pad2_decimal, str_eq, trim_end_char, trim_end_matches_char,
    u64_to_string,
};

verus! {

/// Errors of the Jellyfin client.
#[derive(Debug)]
pub enum JellyfinError {
    /// The request failed (the client's message).
    Http(String),
    /// The API answered with an error status and body.
    Api { status: u16, body: String },
    /// No API key is configured.
    NoApiKey,
}

impl JellyfinError {
    /// The error message.
    pub fn message(&self) -> (r: String)
        ensures
            match self {
                JellyfinError::Http(e) => r@ == "HTTP request failed: "@ + e@,
                JellyfinError::Api { status, body } => r@ == "Jellyfin API returned error: "@ + decimal(*status as nat) + " "@ + body@,
                JellyfinError::NoApiKey => r@ == "no API key configured"@,
            },
    {
        match self {
            JellyfinError::Http(e) => owned("HTTP request failed: ").concat(e.as_str()),
            JellyfinError::Api { status, body } => {
                let d = u64_to_string(*status as u64);
                owned("Jellyfin API returned error: ").concat(d.as_str()).concat(" ").concat(body.as_str())
            },
            JellyfinError::NoApiKey => owned("no API key configured"),
        }
    }
}

/// The server URL without trailing slashes, as the client keeps it.
pub fn trim_base_url(url: &str) -> (r: String)
    ensures
        r@ == trim_end_char(url@, '/'),
{
    trim_end_matches_char(url, '/')
}

/// The URL of an API path under the server URL.
pub fn endpoint(base_url: &str, path: &str) -> (r: String)
    ensures
        r@ == base_url@ + path@,
{
    owned(base_url).concat(path)
}

/// The text of an optional string, or a default.
pub open spec fn text_or(o: Option<String>, d: Seq<char>) -> Seq<char> {
    match o {
        Some(s) => s@,
        None => d,
    }
}

fn text_or_empty(o: &Option<String>) -> (r: String)
    ensures
        r@ == text_or(*o, Seq::empty()),
{
    match o {
        Some(s) => s.clone(),
        None => String::new(),
    }
}

fn text_or_exec(o: &Option<String>, d: &str) -> (r: String)
    ensures
        r@ == text_or(*o, d@),
{
    match o {
        Some(s) => s.clone(),
        None => owned(d),
    }
}

/// Whether the system information reports a hardware acceleration type other than
/// empty or `none`.
pub open spec fn hw_available(info: JellyfinSystemInfo) -> bool {
    info.transcoding_info matches Some(t) && t.hardware_acceleration_type matches Some(h)
        && h@.len() > 0 && h@ != "none"@
}

/// The server information of a `/System/Info` reply.
pub fn server_info_from(info: &JellyfinSystemInfo) -> (r: ServerInfo)
    ensures
        r.name@ == text_or(info.server_name, Seq::empty()),
        r.version@ == text_or(info.version, Seq::empty()),
        r.id@ == text_or(info.id, Seq::empty()),
        r.os@ == text_or(info.operating_system, Seq::empty()),
        r.hw_transcode_available == hw_available(*info),
{
    let hw = match &info.transcoding_info {
        Some(t) => match &t.hardware_acceleration_type {
            Some(h) => {
                let n = crate::text::chars_of(h.as_str()).len();
                n > 0 && !str_eq(h.as_str(), "none")
            },
            None => false,
        },
        None => false,
    };
    ServerInfo {
        name: text_or_empty(&info.server_name),
        version: text_or_empty(&info.version),
        id: text_or_empty(&info.id),
        os: text_or_empty(&info.operating_system),
        hw_transcode_available: hw,
    }
}

/// The library of a `/Library/VirtualFolders` entry; a missing collection type is `unknown`.
pub fn library_from(folder: &JellyfinVirtualFolder) -> (r: MediaLibrary)
    ensures
        r.name@ == text_or(folder.name, Seq::empty()),
        r.content_type@ == text_or(folder.collection_type, "unknown"@),
        r.paths@ == folder.locations@,
        r.item_count is None,
{
    MediaLibrary {
        name: text_or_empty(&folder.name),
        content_type: text_or_exec(&folder.collection_type, "unknown"),
        paths: clone_strings(&folder.locations),
        item_count: None,
    }
}

/// The libraries of a `/Library/VirtualFolders` reply, in order.
pub fn libraries_from(folders: &Vec<JellyfinVirtualFolder>) -> (r: Vec<MediaLibrary>)
    ensures
        r@.len() == folders@.len(),
        forall|i: int| 0 <= i < r@.len() ==> {
            &&& (#[trigger] r@[i]).name@ == text_or(folders@[i].name, Seq::empty())
            &&& r@[i].content_type@ == text_or(folders@[i].collection_type, "unknown"@)
            &&& r@[i].paths@ == folders@[i].locations@
            &&& r@[i].item_count is None
        },
{
    let mut out: Vec<MediaLibrary> = Vec::new();
    let mut i: usize = 0;
    while i < folders.len()
        invariant
            i <= folders.len(),
            out@.len() == i,
            forall|j: int| 0 <= j < i ==> {
                &&& (#[trigger] out@[j]).name@ == text_or(folders@[j].name, Seq::empty())
                &&& out@[j].content_type@ == text_or(folders@[j].collection_type, "unknown"@)
                &&& out@[j].paths@ == folders@[j].locations@
                &&& out@[j].item_count is None
            },
        decreases folders.len() - i,
    {
        out.push(library_from(&folders[i]));
        i = i + 1;
    }
    out
}

/// The name shown for a playing item: `series - name` for an episode of a series
/// (`?` for a missing name), else the name.
pub open spec fn item_title(item: JellyfinNowPlayingItem) -> Seq<char> {
    match item.series_name {
        Some(series) => series@ + " - "@ + text_or(item.name, "?"@),
        None => text_or(item.name, Seq::empty()),
    }
}

/// How a stream is delivered: `Direct Play`, or `Transcoding (video->audio)` with
/// `?` for a missing codec.
pub open spec fn delivery(t: JellyfinSessionTranscoding) -> Seq<char> {
    if t.is_video_direct_stream {
        "Direct Play"@
    } else {
        "Transcoding ("@ + text_or(t.video_codec, "?"@) + "->"@ + text_or(t.audio_codec, "?"@) + ")"@
    }
}

/// The playback record of a session entry that plays something.
pub open spec fn playback_ok(s: JellyfinSession, p: PlaybackSession) -> bool {
    let item = s.now_playing_item->0;
    &&& p.user@ == text_or(s.user_name, Seq::empty())
    &&& p.client@ == text_or(s.client, Seq::empty())
    &&& p.item_name@ == item_title(item)
    &&& p.item_type@ == text_or(item.item_type, Seq::empty())
    &&& p.is_paused == (s.play_state matches Some(ps) && ps.is_paused)
    &&& p.position_ticks == match s.play_state { Some(ps) => ps.position_ticks, None => None }
    &&& p.duration_ticks == item.run_time_ticks
    &&& match s.transcoding_info {
        Some(t) => p.transcode_info matches Some(d) && d@ == delivery(t),
        None => p.transcode_info is None,
    }
}

fn item_title_of(item: &JellyfinNowPlayingItem) -> (r: String)
    ensures
        r@ == item_title(*item),
{
    match &item.series_name {
        Some(series) => {
            let name = text_or_exec(&item.name, "?");
            series.clone().concat(" - ").concat(name.as_str())
        },
        None => text_or_empty(&item.name),
    }
}

fn delivery_of(t: &JellyfinSessionTranscoding) -> (r: String)
    ensures
        r@ == delivery(*t),
{
    if t.is_video_direct_stream {
        owned("Direct Play")
    } else {
        let v = text_or_exec(&t.video_codec, "?");
        let a = text_or_exec(&t.audio_codec, "?");
        owned("Transcoding (").concat(v.as_str()).concat("->").concat(a.as_str()).concat(")")
    }
}

/// The playback record of a `/Sessions` entry; nothing for one that plays nothing.
pub fn playback_from(s: &JellyfinSession) -> (r: Option<PlaybackSession>)
    ensures
        s.now_playing_item is None ==> r is None,
        s.now_playing_item is Some ==> (r matches Some(p) && playback_ok(*s, p)),
{
    match &s.now_playing_item {
        None => None,
        Some(item) => {
            let (is_paused, position_ticks) = match &s.play_state {
                Some(ps) => (ps.is_paused, ps.position_ticks),
                None => (false, None),
            };
            let transcode_info = match &s.transcoding_info {
                Some(t) => Some(delivery_of(t)),
                None => None,
            };
            Some(PlaybackSession {
                user: text_or_empty(&s.user_name),
                client: text_or_empty(&s.client),
                item_name: item_title_of(item),
                item_type: text_or_empty(&item.item_type),
                is_paused,
                position_ticks,
                duration_ticks: item.run_time_ticks,
                transcode_info,
            })
        },
    }
}

/// The entries of a `/Sessions` reply that play something.
pub open spec fn playing(ss: Seq<JellyfinSession>) -> Seq<JellyfinSession> {
    ss.filter(|s: JellyfinSession| s.now_playing_item is Some)
}

/// The playback records of a `/Sessions` reply: one for each entry that plays
/// something, in order.
pub fn playing_sessions(sessions: &Vec<JellyfinSession>) -> (r: Vec<PlaybackSession>)
    ensures
        r@.len() == playing(sessions@).len(),
        forall|i: int| 0 <= i < r@.len() ==> playback_ok(playing(sessions@)[i], #[trigger] r@[i]),
{
    let mut out: Vec<PlaybackSession> = Vec::new();
    let mut i: usize = 0;
    while i < sessions.len()
        invariant
            i <= sessions.len(),
            out@.len() == playing(sessions@.take(i as int)).len(),
            forall|j: int| 0 <= j < out@.len() ==> playback_ok(playing(sessions@.take(i as int))[j], #[trigger] out@[j]),
        decreases sessions.len() - i,
    {
        proof {
            assert(sessions@.take(i + 1).drop_last() =~= sessions@.take(i as int));
            reveal(Seq::filter);
        }
        match playback_from(&sessions[i]) {
            Some(p) => out.push(p),
            None => {},
        }
        i = i + 1;
    }
    assert(sessions@.take(sessions@.len() as int) =~= sessions@);
    out
}

/// `a % b` with the sign of `a`, as Rust's `%` computes it.
pub open spec fn rem_toward_zero(a: int, b: int) -> int {
    a - b * crate::clock::trunc_div(a, b)
}

/// A play time in ticks as `hh:mm:ss`, or `mm:ss` under an hour; each part is
/// rounded toward zero and padded to two digits after any sign.
pub open spec fn ticks_text(ticks: int) -> Seq<char> {
    let total = crate::clock::trunc_div(ticks, 10_000_000);
    let hours = crate::clock::trunc_div(total, 3600);
    let minutes = crate::clock::trunc_div(rem_toward_zero(total, 3600), 60);
    let seconds = rem_toward_zero(total, 60);
    if hours > 0 {
        pad2_decimal(hours) + ":"@ + pad2_decimal(minutes) + ":"@ + pad2_decimal(seconds)
    } else {
        pad2_decimal(minutes) + ":"@ + pad2_decimal(seconds)
    }
}

/// Formats ticks (ten million to the second) as a play time.
pub fn format_ticks(ticks: i64) -> (r: String)
    ensures
        r@ == ticks_text(ticks as int),
{
    let total_seconds = ticks / 10_000_000;
    let hours = total_seconds / 3600;
    let minutes = (total_seconds % 3600) / 60;
    let seconds = total_seconds % 60;
    let m = pad2(minutes);
    let s = pad2(seconds);
    if hours > 0 {
        let h = pad2(hours);
        h.concat(":").concat(m.as_str()).concat(":").concat(s.as_str())
    } else {
        m.concat(":").concat(s.as_str())
    }
}

} // verus!
