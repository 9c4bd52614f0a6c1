use henry::media::jellyfin::format_ticks;
use henry::media::types::{MediaStatus, PlaybackSession};

#[test]
fn test_format_ticks() {
    assert_eq!(format_ticks(0), "00:00");
    assert_eq!(format_ticks(600_000_000), "01:00");
    assert_eq!(format_ticks(36_000_000_000), "01:00:00");
    assert_eq!(format_ticks(54_615_000_000), "01:31:01");
}

#[test]
fn test_media_status_defaults() {
    let status = MediaStatus {
        container_running: false,
        api_reachable: false,
        server: None,
        library_count: 0,
        active_sessions: 0,
        hw_transcode_enabled: true,
        library_paths: vec![],
    };
    assert!(!status.container_running);
    assert!(!status.api_reachable);
    assert!(status.server.is_none());
}

#[test]
fn test_playback_session_fields() {
    let session = PlaybackSession {
        user: "test".to_string(),
        client: "Web".to_string(),
        item_name: "Movie".to_string(),
        item_type: "Movie".to_string(),
        is_paused: false,
        position_ticks: Some(600_000_000),
        duration_ticks: Some(72_000_000_000),
        transcode_info: None,
    };
    assert_eq!(session.user, "test");
    assert!(!session.is_paused);
}
