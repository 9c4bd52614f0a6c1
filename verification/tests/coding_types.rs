use henry::coding::manager::format_session;
use henry::coding::session::{SessionError, SessionManager};
use henry::coding::types::{Message, MessageRole, SessionInfo, SessionStatus};

#[test]
fn test_session_status_is_active() {
    assert!(SessionStatus::Starting.is_active());
    assert!(SessionStatus::Running.is_active());
    assert!(!SessionStatus::Stopping.is_active());
    assert!(!SessionStatus::Stopped.is_active());
    assert!(!SessionStatus::Error.is_active());
}

#[test]
fn test_message_creation() {
    let user_msg = Message::user("Hello");
    assert_eq!(user_msg.role, MessageRole::User);
    assert_eq!(user_msg.content, "Hello");

    let assistant_msg = Message::assistant("Hi there");
    assert_eq!(assistant_msg.role, MessageRole::Assistant);
}

#[test]
fn test_session_info_lifecycle() {
    let mut session = SessionInfo::new("test-id".to_string(), "/tmp/test".to_string());
    assert_eq!(session.status, SessionStatus::Starting);
    assert!(session.pid.is_none());

    session.set_running(12345);
    assert_eq!(session.status, SessionStatus::Running);
    assert_eq!(session.pid, Some(12345));

    session.set_stopped();
    assert_eq!(session.status, SessionStatus::Stopped);
    assert!(session.pid.is_none());
}

#[test]
fn test_session_info_error() {
    let mut session = SessionInfo::new("test-id".to_string(), "/tmp/test".to_string());
    session.set_error("Test error".to_string());
    assert_eq!(session.status, SessionStatus::Error);
    assert_eq!(session.error, Some("Test error".to_string()));
}

#[test]
fn test_format_session_running() {
    let mut session = SessionInfo::new("abc123".to_string(), "/tmp/test".to_string());
    session.set_running(12345);
    let formatted = format_session(&session);
    assert!(formatted.contains("RUN"));
    assert!(formatted.contains("abc123"));
    assert!(formatted.contains("PID 12345"));
    assert_eq!(formatted, "RUN abc123 /tmp/test (PID 12345)");
}

#[test]
fn test_format_session_stopped() {
    let mut session = SessionInfo::new("abc123".to_string(), "/tmp/test".to_string());
    session.set_stopped();
    let formatted = format_session(&session);
    assert!(formatted.contains("DONE"));
    assert!(!formatted.contains("PID"));
}

#[test]
fn test_format_session_error() {
    let mut session = SessionInfo::new("abc123".to_string(), "/tmp/test".to_string());
    session.set_error("Test error".to_string());
    let formatted = format_session(&session);
    assert!(formatted.contains("ERR"));
}

#[test]
fn test_session_manager_creation() {
    let manager = SessionManager::new("/tmp/coding-test", 4);
    assert_eq!(manager.max_sessions(), 4);
    assert_eq!(manager.workspace_base(), "/tmp/coding-test");
}

#[test]
fn test_list_empty_sessions() {
    let manager = SessionManager::new("/tmp/coding-test-empty", 4);
    assert!(manager.list_sessions().is_empty());
}

#[test]
fn test_active_count_empty() {
    let manager = SessionManager::new("/tmp/coding-test-count", 4);
    assert_eq!(manager.active_count(), 0);
}

#[test]
fn test_resolve_workspace_relative() {
    let manager = SessionManager::new("/tmp/coding-workspaces", 4);
    assert_eq!(manager.workspace_path("test-project"), "/tmp/coding-workspaces/test-project");
}

#[test]
fn test_resolve_workspace_absolute() {
    let manager = SessionManager::new("/tmp/coding-workspaces", 4);
    assert_eq!(manager.workspace_path("/tmp/other-project"), "/tmp/other-project");
}

#[test]
fn test_get_nonexistent_session() {
    let manager = SessionManager::new("/tmp/coding-test-get", 4);
    assert!(manager.get_session("nonexistent").is_none());
}

#[test]
fn test_stop_nonexistent_session() {
    let mut manager = SessionManager::new("/tmp/coding-test-stop", 4);
    let result = manager.stop_session_at("nonexistent", 0);
    assert!(matches!(result, Err(SessionError::SessionNotFound(_))));
}

use henry::coding::session::{choose_claude_binary, claude_binary_candidates};

#[test]
fn claude_binary_lookup() {
    let c = claude_binary_candidates(Some("/home/u"), "codetool");
    assert_eq!(c[0], "/home/u/.local/bin/codetool");
    assert_eq!(c[4], "/usr/bin/codetool");
    let none = claude_binary_candidates(None, "codetool");
    assert_eq!(none[0], "");
    assert_eq!(
        choose_claude_binary(&c, &vec![false, false, true, true, false], Err("x".to_string())),
        Ok("/opt/homebrew/bin/codetool".to_string())
    );
    assert_eq!(
        choose_claude_binary(&c, &vec![false; 5], Err("cannot find binary path".to_string())),
        Err("coding tool binary not found: cannot find binary path".to_string())
    );
}
