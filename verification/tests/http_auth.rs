use henry::http::auth::{authorize, is_local_ip, verify_token, AuthDecision};

#[test]
fn auth_test_verify_token() {
    assert!(verify_token("my-secret-token", "my-secret-token"));
    assert!(!verify_token("wrong-token", "my-secret-token"));
    assert!(!verify_token("my-secret-token!", "my-secret-token"));
    assert!(!verify_token("my-secret-toke", "my-secret-token"));
}

#[test]
fn test_is_local_ip() {
    assert!(is_local_ip("127.0.0.1"));
    assert!(is_local_ip("::1"));
    assert!(is_local_ip("192.168.1.100"));
    assert!(is_local_ip("10.0.0.1"));
    assert!(!is_local_ip("8.8.8.8"));
    assert!(!is_local_ip("203.0.113.1"));
}
