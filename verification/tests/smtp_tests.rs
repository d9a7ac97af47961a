use ppap::config::EmailConfig;

struct MockSmtpClient {
    sent_emails: Vec<String>,
}

impl MockSmtpClient {
    fn new() -> Self {
        Self { sent_emails: Vec::new() }
    }

    fn send(&mut self, to: &str) -> Result<(), String> {
        self.sent_emails.push(to.to_string());
        Ok(())
    }
}

#[test]
fn test_mock_email_sending() {
    let mut mock_client = MockSmtpClient::new();
    assert!(mock_client.send("test@example.com").is_ok());
    assert_eq!(mock_client.sent_emails.len(), 1);
    assert_eq!(mock_client.sent_emails[0], "test@example.com");
}

#[test]
fn test_email_config_fields() {
    let config = EmailConfig {
        smtp_server: "smtp.example.com".to_string(),
        smtp_port: 587,
        username: "test@example.com".to_string(),
        password: "password123".to_string(),
    };
    assert_eq!(config.smtp_server, "smtp.example.com");
    assert_eq!(config.smtp_port, 587);
    assert_eq!(config.username, "test@example.com");
    assert_eq!(config.password, "password123");
}
