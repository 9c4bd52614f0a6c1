use henry::coding::manager::{default_base_url, AnthropicClient, ClaudeManager};
use henry::config::{ClaudeConfig, Config, ContainerConfig, MediaConfig};
use henry::media::jellyfin::trim_base_url;
use henry::media::manager::MediaManager;
use henry::server::manager::{podman_socket_candidates, ContainerError, ServerModule};

#[test]
fn test_default_config() {
    let config = Config::default_in(None);
    assert!(!config.telegram.enabled);
    assert!(config.http.enabled);
    assert_eq!(config.http.port, 18791);
}

#[test]
fn test_config_validation() {
    let mut config = Config::default_in(None);
    config.telegram.enabled = true;
    assert!(config.validate().is_err());

    config.telegram.allowed_users = vec![12345];
    assert!(config.validate().is_ok());
}

#[test]
fn test_client_creation() {
    let client = AnthropicClient::new("test-key");
    assert_eq!(client.base_url(), default_base_url());
}

#[test]
fn test_client_custom_base_url() {
    let client = AnthropicClient::with_base_url("test-key", "https://custom.api.com");
    assert_eq!(client.base_url(), "https://custom.api.com");
}

#[test]
fn client_messages_url() {
    let client = AnthropicClient::with_base_url("k", "https://custom.api.com");
    assert_eq!(client.messages_url(), "https://custom.api.com/v1/messages");
    assert_eq!(client.api_key(), "k");
}

#[test]
fn test_claude_manager_no_api_key() {
    let config = ClaudeConfig::default_in(None);
    let manager = ClaudeManager::new(config, None);
    assert!(!manager.has_api_client());
}

#[test]
fn test_claude_manager_with_api_key() {
    let config = ClaudeConfig::default_in(None);
    let manager = ClaudeManager::new(config, Some("test-key".to_string()));
    assert!(manager.has_api_client());
}

#[test]
fn test_status_without_api() {
    let config = ClaudeConfig::default_in(None);
    let max = config.max_sessions;
    let manager = ClaudeManager::new(config, None);
    let status = manager.status();
    assert!(!status.api_key_configured);
    assert_eq!(status.max_sessions, max);
    assert_eq!(status.active_sessions, 0);
}

#[test]
fn test_media_manager_no_containers() {
    let manager = MediaManager::new(MediaConfig::default(), false, None);
    assert!(manager.client_settings().is_none());
}

#[test]
fn test_media_manager_with_api_key() {
    let manager = MediaManager::new(MediaConfig::default(), false, Some("test-key".to_string()));
    assert!(manager.client_settings().is_some());
}

#[test]
fn test_validate_paths_empty() {
    let manager = MediaManager::new(MediaConfig::default(), false, None);
    let result = manager.validate_paths(&Vec::new());
    assert!(result.is_empty());
}

#[test]
fn test_validate_paths_nonexistent() {
    let mut config = MediaConfig::default();
    config.library_paths = vec!["/nonexistent/media/path".into()];
    let manager = MediaManager::new(config, false, None);
    let result = manager.validate_paths(&vec![false]);
    assert_eq!(result.len(), 1);
    assert_eq!(result[0].0, "/nonexistent/media/path");
    assert!(!result[0].1);
}

#[test]
fn test_container_name() {
    let manager = MediaManager::new(MediaConfig::default(), false, None);
    assert_eq!(manager.container_name(), "jellyfin");
}

#[test]
fn test_status_without_services() {
    let manager = MediaManager::new(MediaConfig::default(), false, None);
    let status = manager.status(false, false, None, None, None);
    assert!(!status.container_running);
    assert!(!status.api_reachable);
    assert!(status.server.is_none());
    assert_eq!(status.library_count, 0);
    assert_eq!(status.active_sessions, 0);
}

#[test]
fn test_jellyfin_client_url_trimming() {
    assert_eq!(trim_base_url("http://localhost:8096/"), "http://localhost:8096");
}

#[test]
fn test_server_module_initial_state() {
    let module = ServerModule::new(ContainerConfig::default());
    assert!(!module.is_connected());
    assert!(module.last_error().is_none());
}

#[test]
fn server_module_records_init() {
    let mut module = ServerModule::new(ContainerConfig::default());
    module.record_init(&Err(ContainerError::NoSocket));
    assert!(!module.is_connected());
    assert_eq!(module.last_error(), Some("no container runtime socket found"));
    module.record_init(&Ok(()));
    assert!(module.is_connected());
    assert!(module.last_error().is_none());
}

#[test]
fn test_get_socket_candidates() {
    let candidates = podman_socket_candidates(Some("/run/user/1000"), Some(1000), Some("/home/u"));
    assert!(candidates.iter().any(|p| p.contains("docker.sock")));
}
