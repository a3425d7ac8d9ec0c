use openlinear_desktop::secure_storage::keys::{
    ANTHROPIC_API_KEY, CUSTOM_API_KEY, GITHUB_TOKEN, OPENAI_API_KEY,
};
use openlinear_desktop::secure_storage::{
    list_secrets, SecureStorageResult, StoredSecret, SERVICE_NAME,
};

#[test]
fn no_secrets_are_listed() {
    assert_eq!(list_secrets(), Ok(Vec::new()));
}

#[test]
fn storage_result_reports_the_outcome() {
    let stored = SecureStorageResult::from_outcome(Ok(()));
    assert!(stored.success);
    assert_eq!(stored.error, None);
    let failed = SecureStorageResult::from_outcome(Err("No matching entry".to_string()));
    assert!(!failed.success);
    assert_eq!(failed.error, Some("No matching entry".to_string()));
}

#[test]
fn secrets_are_filed_under_fixed_names() {
    assert_eq!(SERVICE_NAME, "com.openlinear.app");
    assert_eq!(GITHUB_TOKEN, "github_token");
    assert_eq!(OPENAI_API_KEY, "openai_api_key");
    assert_eq!(ANTHROPIC_API_KEY, "anthropic_api_key");
    assert_eq!(CUSTOM_API_KEY, "custom_api_key");
    let secret = StoredSecret { key: GITHUB_TOKEN.to_string(), value: "t".to_string() };
    assert_eq!(secret.key, "github_token");
    assert_eq!(secret.value, "t");
}
