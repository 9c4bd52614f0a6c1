//! Media types: what the module reports, and the Jellyfin records it reads.

use vstd::prelude::*;

verus! {

/// Jellyfin server information.
#[derive(Debug)]
pub struct ServerInfo {
    /// Server name.
    pub name: String,
    /// Server version.
    pub version: String,
    /// Server id.
    pub id: String,
    /// Operating system.
    pub os: String,
    /// Whether hardware transcoding is available.
    pub hw_transcode_available: bool,
}

/// A media library (virtual folder) of Jellyfin.
#[derive(Debug)]
pub struct MediaLibrary {
    /// Library name.
    pub name: String,
    /// Content type (such as `movies`, `tvshows`, `music`).
    pub content_type: String,
    /// Filesystem paths of the library.
    pub paths: Vec<String>,
    /// Item count, when known.
    pub item_count: Option<u64>,
}

/// An active playback session.
#[derive(Debug)]
pub struct PlaybackSession {
    /// User playing.
    pub user: String,
    /// Client name.
    pub client: String,
    /// Item being played.
    pub item_name: String,
    /// Item type (such as `Movie`, `Episode`).
    pub item_type: String,
    /// Whether playback is paused.
    pub is_paused: bool,
    /// Position in ticks (ten million ticks to the second).
    pub position_ticks: Option<i64>,
    /// Duration in ticks.
    pub duration_ticks: Option<i64>,
    /// How the stream is delivered, when transcoding information is present.
    pub transcode_info: Option<String>,
}

/// Overall media module status.
#[derive(Debug)]
pub struct MediaStatus {
    /// Whether the Jellyfin container is running.
    pub container_running: bool,
    /// Whether the Jellyfin API is reachable.
    pub api_reachable: bool,
    /// Server information, when available.
    pub server: Option<ServerInfo>,
    /// Number of libraries.
    pub library_count: usize,
    /// Number of active playback sessions.
    pub active_sessions: usize,
    /// Hardware transcoding enabled in the configuration.
    pub hw_transcode_enabled: bool,
    /// Configured library paths.
    pub library_paths: Vec<String>,
}

/// The reply of Jellyfin's `/System/Info`.
#[derive(Debug)]
pub struct JellyfinSystemInfo {
    pub server_name: Option<String>,
    pub version: Option<String>,
    pub id: Option<String>,
    pub operating_system: Option<String>,
    pub has_pending_restart: bool,
    pub transcoding_info: Option<JellyfinTranscodingInfo>,
}

/// Transcoding part of the system information.
#[derive(Debug)]
pub struct JellyfinTranscodingInfo {
    pub hardware_acceleration_type: Option<String>,
}

/// One entry of Jellyfin's `/Library/VirtualFolders`.
#[derive(Debug)]
pub struct JellyfinVirtualFolder {
    pub name: Option<String>,
    pub collection_type: Option<String>,
    pub locations: Vec<String>,
    pub library_options: Option<JellyfinLibraryOptions>,
}

/// Library options of a virtual folder (not read).
#[derive(Debug)]
pub struct JellyfinLibraryOptions {}

/// One entry of Jellyfin's `/Sessions`.
#[derive(Debug)]
pub struct JellyfinSession {
    pub user_name: Option<String>,
    pub client: Option<String>,
    pub now_playing_item: Option<JellyfinNowPlayingItem>,
    pub play_state: Option<JellyfinPlayState>,
    pub transcoding_info: Option<JellyfinSessionTranscoding>,
}

/// The item a session plays.
#[derive(Debug)]
pub struct JellyfinNowPlayingItem {
    pub name: Option<String>,
    pub item_type: Option<String>,
    pub run_time_ticks: Option<i64>,
    pub series_name: Option<String>,
}

/// Play state of a session.
#[derive(Debug)]
pub struct JellyfinPlayState {
    pub is_paused: bool,
    pub position_ticks: Option<i64>,
}

/// Transcoding state of a session.
#[derive(Debug)]
pub struct JellyfinSessionTranscoding {
    pub is_video_direct_stream: bool,
    pub video_codec: Option<String>,
    pub audio_codec: Option<String>,
    pub transcode_reasons: Option<Vec<String>>,
}

} // verus!
