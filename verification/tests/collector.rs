use ratelimit_reporter::collector::{
    collector_config, handle_report, CollectorConfig, SEVERITY_COLOR, STATUS_OK,
    STATUS_UNAUTHORIZED,
};
use ratelimit_reporter::config::ConfigError;
use ratelimit_reporter::collector::health_body;

fn test_config() -> CollectorConfig {
    collector_config(
        Some("s3cret".to_string()),
        Some("https://hooks.test/abc".to_string()),
        None,
        None,
    )
    .expect("complete configuration")
}

#[test]
fn accepted_report_confirms_and_forwards_once() {
    let response = handle_report(&test_config(), Some("s3cret"), "node-1");
    assert_eq!(response.status, STATUS_OK);
    assert_eq!(response.body, "Ratelimit for node node-1 reported");
    let notification = response.notification.expect("one notification owed");
    assert_eq!(notification.content, "Rate limit exceeded");
    assert_eq!(notification.title, "Rate limit exceeded");
    assert_eq!(notification.description, "Rate limit exceeded on node node-1");
    assert_eq!(notification.color, SEVERITY_COLOR);
    assert_eq!(notification.color, 16711680);
}

#[test]
fn wrong_secret_is_rejected_without_forwarding() {
    let response = handle_report(&test_config(), Some("wrong"), "node-1");
    assert_eq!(response.status, STATUS_UNAUTHORIZED);
    assert_eq!(response.status, 401);
    assert_eq!(response.body, "Unauthorized");
    assert!(response.notification.is_none());
}

#[test]
fn missing_header_is_rejected_without_forwarding() {
    let response = handle_report(&test_config(), None, "node-1");
    assert_eq!(response.status, STATUS_UNAUTHORIZED);
    assert!(response.notification.is_none());
}

#[test]
fn secret_comparison_is_exact() {
    let response = handle_report(&test_config(), Some("s3cret "), "node-1");
    assert_eq!(response.status, STATUS_UNAUTHORIZED);
    assert!(response.notification.is_none());
}

#[test]
fn configured_message_becomes_the_content() {
    let config = collector_config(
        Some("s3cret".to_string()),
        Some("https://hooks.test/abc".to_string()),
        Some("custom alert".to_string()),
        Some("127.0.0.1:8080".to_string()),
    )
    .expect("complete configuration");
    assert_eq!(config.webhook_message, "custom alert");
    assert_eq!(config.bind, "127.0.0.1:8080");
    let response = handle_report(&config, Some("s3cret"), "node-2");
    let notification = response.notification.expect("one notification owed");
    assert_eq!(notification.content, "custom alert");
    assert_eq!(notification.description, "Rate limit exceeded on node node-2");
}

#[test]
fn collector_config_applies_defaults() {
    let config = test_config();
    assert_eq!(config.api_key, "s3cret");
    assert_eq!(config.webhook_url, "https://hooks.test/abc");
    assert_eq!(config.webhook_message, "Rate limit exceeded");
    assert_eq!(config.bind, "0.0.0.0:3000");
}

#[test]
fn collector_config_names_missing_key() {
    let err = collector_config(None, Some("https://hooks.test/abc".to_string()), None, None)
        .expect_err("missing key");
    assert_eq!(err, ConfigError::MissingApiKey);
}

#[test]
fn collector_config_names_missing_webhook_url() {
    let err = collector_config(Some("s3cret".to_string()), None, None, None)
        .expect_err("missing webhook URL");
    assert_eq!(err, ConfigError::MissingWebhookUrl);
    assert_eq!(err.describe(), "DISCORD_WEBHOOK_URL is not set");
}

#[test]
fn liveness_body_is_fixed() {
    assert_eq!(health_body(), "Hello, World!");
}
