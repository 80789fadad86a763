//! The keys a configuration is written with.

use vstd::prelude::*;
use vstd::string::*;

verus! {

/// A key of the configuration file.
#[derive(Clone, Copy, Debug, PartialEq, Eq, Structural)]
pub enum ConfigKey {
    // General service
    Service,
    Interval,
    Timeout,
    Configuration,
    Type,
    // Service type web
    Url,
    ExpectedHttpCode,
    Headers,
    // Service type server
    Socket,
    // General notification
    Notification,
    // Notification email
    SmtpDomain,
    SmtpCredentials,
    MailFrom,
    MailTo,
    MailCc,
    MailBcc,
}

impl ConfigKey {
    /// The key as it is written in the file.
    pub open spec fn spec_name(self) -> Seq<char> {
        match self {
            ConfigKey::Service => "service"@,
            ConfigKey::Interval => "interval"@,
            ConfigKey::Url => "url"@,
            ConfigKey::ExpectedHttpCode => "expected_http_code"@,
            ConfigKey::Headers => "headers"@,
            ConfigKey::Timeout => "timeout"@,
            ConfigKey::Configuration => "configuration"@,
            ConfigKey::Type => "type"@,
            ConfigKey::Socket => "socket"@,
            ConfigKey::Notification => "notification"@,
            ConfigKey::SmtpDomain => "smtp_domain"@,
            ConfigKey::SmtpCredentials => "smtp_credentials"@,
            ConfigKey::MailFrom => "from"@,
            ConfigKey::MailTo => "to"@,
            ConfigKey::MailCc => "cc"@,
            ConfigKey::MailBcc => "bcc"@,
        }
    }

    /// The key as it is written in the file.
    pub fn as_str(&self) -> (name: &'static str)
        ensures
            name@ == self.spec_name(),
    {
        match self {
            ConfigKey::Service => "service",
            ConfigKey::Interval => "interval",
            ConfigKey::Url => "url",
            ConfigKey::ExpectedHttpCode => "expected_http_code",
            ConfigKey::Headers => "headers",
            ConfigKey::Timeout => "timeout",
            ConfigKey::Configuration => "configuration",
            ConfigKey::Type => "type",
            ConfigKey::Socket => "socket",
            ConfigKey::Notification => "notification",
            ConfigKey::SmtpDomain => "smtp_domain",
            ConfigKey::SmtpCredentials => "smtp_credentials",
            ConfigKey::MailFrom => "from",
            ConfigKey::MailTo => "to",
            ConfigKey::MailCc => "cc",
            ConfigKey::MailBcc => "bcc",
        }
    }

    /// The key as an owned string.
    pub fn to_string(&self) -> (text: String)
        ensures
            text@ == self.spec_name(),
    {
        String::from_str(self.as_str())
    }
}

/// Says what the value of a key should have looked like.
#[derive(Clone, Copy, Debug, PartialEq, Eq, Structural)]
pub struct ConfigKeyInvalidFormat(pub ConfigKey);

impl ConfigKeyInvalidFormat {
    /// The expectation for the value of `key`.
    pub fn new(key: ConfigKey) -> (format: Self)
        ensures
            format.0 == key,
    {
        Self(key)
    }

    /// The expectation in words.
    pub open spec fn text(self) -> Seq<char> {
        match self.0 {
            ConfigKey::ExpectedHttpCode => "Must be a valid HTTP Code"@,
            ConfigKey::Timeout => "Must be a number greater than zero"@,
            ConfigKey::Socket => "Must be a value with pattern IP_ADDRESS:PORT or DOMAIN:PORT"@,
            _ => "Undefined format"@,
        }
    }

    /// The expectation in words.
    pub fn to_string(&self) -> (text: String)
        ensures
            text@ == self.text(),
    {
        match self.0 {
            ConfigKey::ExpectedHttpCode => String::from_str("Must be a valid HTTP Code"),
            ConfigKey::Timeout => String::from_str("Must be a number greater than zero"),
            ConfigKey::Socket => String::from_str(
                "Must be a value with pattern IP_ADDRESS:PORT or DOMAIN:PORT",
            ),
            _ => String::from_str("Undefined format"),
        }
    }
}

} // verus!
