//! The application configuration consumed by the timer core and the email
//! front end, with its documented defaults.

use vstd::prelude::*;

verus! {

/// The name of the application, used for its state directory.
pub fn name() -> (r: &'static str)
    ensures
        r@ == "deadman"@,
{
    "deadman"
}

/// Configuration errors raised by the library's own checks.
#[derive(Clone, Copy, Debug, PartialEq, Eq, Structural)]
pub enum ConfigError {
    /// An attachment path was asked for but none is configured.
    AttachmentNotFound,
}

impl ConfigError {
    /// A human-readable description of the error.
    pub fn message(&self) -> (r: &'static str)
        ensures
            r@ == "Attachment not found"@,
    {
        match self {
            ConfigError::AttachmentNotFound => "Attachment not found",
        }
    }
}

/// Errors when locating the application's home directory.
#[derive(Clone, Copy, Debug, PartialEq, Eq, Structural)]
pub enum HomeDirError {
    /// The directory could not be created or read.
    Io,
    /// No home directory exists for the current user.
    HomeDirNotFound,
}

/// Configuration for the switch.
///
/// Loaded by the host from a configuration file; created with the defaults
/// below when that file does not exist.
#[derive(Clone, Debug)]
pub struct Config {
    /// The username for the email account.
    pub username: String,
    /// The password for the email account.
    pub password: String,
    /// The SMTP server to use.
    pub smtp_server: String,
    /// The port to use for the SMTP server.
    pub smtp_port: u16,
    /// The message sent when the dead-man timer fires.
    pub message: String,
    /// The message sent when the warning timer fires.
    pub message_warning: String,
    /// The subject of the dead-man email.
    pub subject: String,
    /// The subject of the warning email.
    pub subject_warning: String,
    /// The email address(es) the dead-man email goes to, comma-separated.
    pub to: String,
    /// The email address the mail is sent from (and the warning goes to).
    pub from: String,
    /// Path of an attachment to send with the dead-man email, if any.
    pub attachment: Option<String>,
    /// The warning period in seconds.
    pub timer_warning: u64,
    /// The dead-man period in seconds.
    pub timer_dead_man: u64,
    /// Password for the web interface.
    pub web_password: String,
    /// Cookie expiration in days, to avoid repeated logins.
    pub cookie_exp_days: u64,
    /// Log level for the web interface, if overridden.
    pub log_level: Option<String>,
}

impl Default for Config {
    /// The documented defaults: a two-week warning period followed by a
    /// one-week dead-man period, placeholder addresses, and no attachment.
    fn default() -> (c: Config)
        ensures
            c.username@ == "me@example.com"@,
            c.password@ == ""@,
            c.smtp_server@ == "smtp.example.com"@,
            c.smtp_port == 587,
            c.subject@ == "[URGENT] Something Happened to Me!"@,
            c.subject_warning@ == "[URGENT] You need to check in!"@,
            c.to@ == "someone@example.com"@,
            c.from@ == "me@example.com"@,
            c.attachment is None,
            c.timer_warning == 1209600,
            c.timer_dead_man == 604800,
            c.web_password@ == "password"@,
            c.cookie_exp_days == 7,
            c.log_level is None,
    {
        Config {
            username: "me@example.com".to_owned(),
            password: "".to_owned(),
            smtp_server: "smtp.example.com".to_owned(),
            smtp_port: 587,
            message:
                "I'm probably dead, go to Central Park NY under bench #137 you'll find an age-encrypted drive. Password is our favorite music in Pascal case.".to_owned(),
            message_warning: "Hey, you haven't checked in for a while. Are you okay?".to_owned(),
            subject: "[URGENT] Something Happened to Me!".to_owned(),
            subject_warning: "[URGENT] You need to check in!".to_owned(),
            to: "someone@example.com".to_owned(),
            from: "me@example.com".to_owned(),
            attachment: None,
            timer_warning: 1209600,
            timer_dead_man: 604800,
            web_password: "password".to_owned(),
            cookie_exp_days: 7,
            log_level: None,
        }
    }
}

/// The configured attachment path.
///
/// Returns the path exactly when one is configured, and
/// [`ConfigError::AttachmentNotFound`] exactly when none is.
pub fn attachment_path(config: &Config) -> (r: Result<String, ConfigError>)
    ensures
        r matches Ok(p) ==> config.attachment matches Some(a) && p == a,
        r is Err ==> config.attachment is None && r == Err::<String, ConfigError>(
            ConfigError::AttachmentNotFound,
        ),
{
    match &config.attachment {
        Some(a) => Ok(a.clone()),
        None => Err(ConfigError::AttachmentNotFound),
    }
}

} // verus!
