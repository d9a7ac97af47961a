use ppap::config::{ConfigError, SendGridConfig, SendGridProtocol};

#[test]
fn test_config_with_rest_protocol() {
    let config = SendGridConfig::from_values(
        Some("test_api_key".to_string()),
        Some("rest".to_string()),
        Some("foo@example.com".to_string()),
    )
    .unwrap();
    assert!(matches!(config.protocol, SendGridProtocol::Rest));
}

#[test]
fn test_config_with_smtp_protocol() {
    let config = SendGridConfig::from_values(
        Some("test_api_key".to_string()),
        Some("smtp".to_string()),
        Some("foo@example.com".to_string()),
    )
    .unwrap();
    assert!(matches!(config.protocol, SendGridProtocol::Smtp));
}

#[test]
fn test_config_with_default_protocol() {
    let config = SendGridConfig::from_values(
        Some("test_api_key".to_string()),
        None,
        Some("foo@example.com".to_string()),
    )
    .unwrap();
    assert!(matches!(config.protocol, SendGridProtocol::Rest));
}

#[test]
fn test_config_without_api_key() {
    let result = SendGridConfig::from_values(None, None, None);
    assert!(result.is_err());
}

#[test]
fn test_config_with_invalid_protocol() {
    let config = SendGridConfig::from_values(
        Some("test_api_key".to_string()),
        Some("invalid_protocol".to_string()),
        Some("foo@example.com".to_string()),
    )
    .unwrap();
    assert!(matches!(config.protocol, SendGridProtocol::Rest));
}

#[test]
fn test_config_with_blank_api_key() {
    let result = SendGridConfig::from_values(
        Some("   ".to_string()),
        None,
        Some("foo@example.com".to_string()),
    );
    assert!(matches!(result, Err(ConfigError::EmptyApiKey)));
}

#[test]
fn test_config_without_from_address() {
    let result = SendGridConfig::from_values(Some("test_api_key".to_string()), None, None);
    assert!(matches!(result, Err(ConfigError::MissingFromAddress)));
}

#[test]
fn test_config_with_uppercase_smtp_protocol() {
    let config = SendGridConfig::from_values(
        Some("test_api_key".to_string()),
        Some("SMTP".to_string()),
        Some("foo@example.com".to_string()),
    )
    .unwrap();
    assert!(matches!(config.protocol, SendGridProtocol::Smtp));
    assert_eq!(config.api_key, "test_api_key");
    assert_eq!(config.from_address, "foo@example.com");
}
