use dead_man_switch::config::{attachment_path, name, Config, ConfigError};
use dead_man_switch::email::{email_plan, split_recipients, Email};

fn test_config() -> Config {
    Config {
        username: "user@example.com".to_string(),
        password: "password".to_string(),
        smtp_server: "smtp.example.com".to_string(),
        smtp_port: 587,
        message: "This is a test message".to_string(),
        message_warning: "This is a test warning message".to_string(),
        subject: "Test Subject".to_string(),
        subject_warning: "Test Warning Subject".to_string(),
        to: "recipient@example.com, recipient2@example.com".to_string(),
        from: "sender@example.com".to_string(),
        attachment: None,
        timer_warning: 60,
        timer_dead_man: 120,
        web_password: "password".to_string(),
        cookie_exp_days: 7,
        log_level: None,
    }
}

#[test]
fn app_name_is_stable() {
    assert_eq!(name(), "deadman");
}

#[test]
fn default_config_values() {
    let config = Config::default();
    assert_eq!(config.username, "me@example.com");
    assert_eq!(config.smtp_server, "smtp.example.com");
    assert_eq!(config.smtp_port, 587);
    assert_eq!(config.timer_warning, 60 * 60 * 24 * 14);
    assert_eq!(config.timer_dead_man, 60 * 60 * 24 * 7);
    assert_eq!(config.cookie_exp_days, 7);
    assert!(config.attachment.is_none());
}

#[test]
fn attachment_path_requires_an_attachment() {
    let mut config = test_config();
    assert_eq!(attachment_path(&config), Err(ConfigError::AttachmentNotFound));
    assert_eq!(ConfigError::AttachmentNotFound.message(), "Attachment not found");
    config.attachment = Some("Cargo.toml".to_string());
    assert_eq!(attachment_path(&config), Ok("Cargo.toml".to_string()));
}

#[test]
fn warning_email_goes_back_to_the_owner() {
    let config = test_config();
    let plan = email_plan(&config, Email::Warning);
    assert_eq!(plan.to, "sender@example.com");
    assert_eq!(plan.subject, "Test Warning Subject");
    assert_eq!(plan.body, "This is a test warning message");
    assert!(!plan.include_attachment);
}

#[test]
fn dead_man_email_goes_to_the_recipients() {
    let mut config = test_config();
    config.attachment = Some("Cargo.toml".to_string());
    let plan = email_plan(&config, Email::DeadMan);
    assert_eq!(plan.to, "recipient@example.com, recipient2@example.com");
    assert_eq!(plan.subject, "Test Subject");
    assert_eq!(plan.body, "This is a test message");
    assert!(plan.include_attachment);
}

#[test]
fn dead_man_email_without_attachment() {
    let config = test_config();
    let plan = email_plan(&config, Email::DeadMan);
    assert!(!plan.include_attachment);
}

#[test]
fn recipients_split_on_commas_and_trim() {
    let parts = split_recipients(b"recipient@example.com, recipient2@example.com");
    assert_eq!(parts.len(), 2);
    assert_eq!(parts[0], b"recipient@example.com".to_vec());
    assert_eq!(parts[1], b"recipient2@example.com".to_vec());
}

#[test]
fn recipients_edge_cases() {
    assert_eq!(split_recipients(b""), vec![b"".to_vec()]);
    assert_eq!(
        split_recipients(b" one@example.com ,,  two@example.com\t"),
        vec![b"one@example.com".to_vec(), b"".to_vec(), b"two@example.com".to_vec()]
    );
}
