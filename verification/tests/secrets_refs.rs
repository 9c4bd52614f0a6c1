use henry::secrets::{SecretManager, SecretsError};

#[test]
fn test_reference_validation() {
    let _manager = SecretManager::new();
    assert!(SecretManager::redact_reference("op://vault/item/field").contains("*****"));
}

#[test]
fn test_redact_reference() {
    assert_eq!(SecretManager::redact_reference("op://Private/API Key/credential"), "op://Private/API Key/*****");
}

#[test]
fn test_invalid_reference() {
    let manager = SecretManager::new();
    let result = manager.lookup("invalid-reference");
    assert!(matches!(result, Err(SecretsError::InvalidReference(_))));
}
