use henry::telegram::auth::{is_authorized, verify_token};

#[test]
fn test_user_id_auth() {
    let allowed_ids = vec![12345, 67890];
    let allowed_usernames: Vec<String> = vec![];

    assert!(is_authorized(12345, None, &allowed_ids, &allowed_usernames));
    assert!(is_authorized(67890, Some("user"), &allowed_ids, &allowed_usernames));
    assert!(!is_authorized(99999, None, &allowed_ids, &allowed_usernames));
}

#[test]
fn test_username_auth() {
    let allowed_ids: Vec<i64> = vec![];
    let allowed_usernames = vec!["admin".to_string(), "operator".to_string()];

    assert!(is_authorized(99999, Some("admin"), &allowed_ids, &allowed_usernames));
    assert!(is_authorized(99999, Some("operator"), &allowed_ids, &allowed_usernames));
    assert!(!is_authorized(99999, Some("hacker"), &allowed_ids, &allowed_usernames));
    assert!(!is_authorized(99999, None, &allowed_ids, &allowed_usernames));
}

#[test]
fn test_combined_auth() {
    let allowed_ids = vec![12345];
    let allowed_usernames = vec!["admin".to_string()];

    assert!(is_authorized(12345, Some("unknown"), &allowed_ids, &allowed_usernames));
    assert!(is_authorized(99999, Some("admin"), &allowed_ids, &allowed_usernames));
    assert!(!is_authorized(99999, Some("hacker"), &allowed_ids, &allowed_usernames));
}

#[test]
fn test_verify_token() {
    assert!(verify_token("secret123", "secret123"));
    assert!(!verify_token("secret123", "secret124"));
    assert!(!verify_token("secret123", "secret12"));
    assert!(!verify_token("secret12", "secret123"));
}

#[test]
fn test_empty_allowlists() {
    let allowed_ids: Vec<i64> = vec![];
    let allowed_usernames: Vec<String> = vec![];

    assert!(!is_authorized(12345, Some("user"), &allowed_ids, &allowed_usernames));
}
