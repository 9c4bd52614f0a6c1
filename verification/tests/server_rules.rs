use henry::server::manager::{is_allowed, is_secret_env};
use henry::server::types::ContainerStatus;

#[test]
fn test_allowlist_empty_allows_all() {
    let allowed: Vec<String> = vec![];
    assert!(is_allowed(&allowed, "any-container"));
    assert!(is_allowed(&allowed, "foo"));
}

#[test]
fn test_allowlist_filters() {
    let allowed = vec!["allowed-1".to_string(), "allowed-2".to_string()];
    assert!(is_allowed(&allowed, "allowed-1"));
    assert!(is_allowed(&allowed, "allowed-2"));
    assert!(!is_allowed(&allowed, "not-allowed"));
}

#[test]
fn test_allowlist_with_slash_prefix() {
    let allowed = vec!["/jellyfin".to_string()];
    assert!(is_allowed(&allowed, "jellyfin"));
}

#[test]
fn test_is_secret_env() {
    assert!(is_secret_env("DB_PASSWORD=foo"));
    assert!(is_secret_env("API_KEY=bar"));
    assert!(is_secret_env("SECRET_TOKEN=baz"));
    assert!(is_secret_env("AUTH_CREDENTIAL=qux"));
    assert!(!is_secret_env("DATABASE_URL=localhost"));
    assert!(!is_secret_env("PORT=8080"));
}

#[test]
fn test_container_status_from_state() {
    assert_eq!(ContainerStatus::from_state("running"), ContainerStatus::Running);
    assert_eq!(ContainerStatus::from_state("RUNNING"), ContainerStatus::Running);
    assert_eq!(ContainerStatus::from_state("exited"), ContainerStatus::Exited);
    assert_eq!(ContainerStatus::from_state("foo"), ContainerStatus::Unknown);
}

#[test]
fn test_container_status_is_running() {
    assert!(ContainerStatus::Running.is_running());
    assert!(!ContainerStatus::Exited.is_running());
    assert!(!ContainerStatus::Unknown.is_running());
}

#[test]
fn test_container_status_display() {
    assert_eq!(ContainerStatus::Running.to_string(), "running");
    assert_eq!(ContainerStatus::Exited.to_string(), "exited");
}
