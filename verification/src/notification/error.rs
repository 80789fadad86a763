//! What can be wrong with the configuration of a notifier.

use vstd::prelude::*;
use vstd::string::*;
use crate::notification::NotificationType;
use crate::parser::error::ConfigError;
use crate::parser::keys::ConfigKey;

verus! {

/// Why the configuration of a notifier was refused. The two file variants
/// carry the path and the words of the failure underneath.
#[derive(Debug)]
pub enum NotificationParseError {
    KeyNotFoundAt(ConfigKey, NotificationType),
    InvalidFormat(ConfigKey, String),
    InternalParse(String),
    InternalBuild(String),
    UnableToReadFile(String, String),
    UnableToOpenFile(String, String),
}

impl NotificationParseError {
    /// The error in words.
    pub open spec fn text(self) -> Seq<char> {
        match self {
            NotificationParseError::KeyNotFoundAt(key, n_type) => "Key '"@ + key.spec_name()
                + "' is mandatory for a notification of type "@ + n_type.spec_name() + "."@,
            NotificationParseError::InvalidFormat(key, format) => "Invalid format for '"@
                + key.spec_name() + "'. Expected: "@ + format@,
            NotificationParseError::InternalParse(e) => e@,
            NotificationParseError::InternalBuild(e) => e@,
            NotificationParseError::UnableToReadFile(path, e) =>
                "Unable to read the desired file.\nPath: "@ + path@ + "\nError: "@ + e@,
            NotificationParseError::UnableToOpenFile(path, e) =>
                "Unable to open the desired file.\nPath: "@ + path@ + "\nError: "@ + e@,
        }
    }

    /// The error in words.
    pub fn to_string(&self) -> (text: String)
        ensures
            text@ == self.text(),
    {
        match self {
            NotificationParseError::KeyNotFoundAt(key, n_type) => String::from_str(
                "Key '",
            ).concat(key.as_str()).concat("' is mandatory for a notification of type ").concat(
                n_type.name(),
            ).concat("."),
            NotificationParseError::InvalidFormat(key, format) => String::from_str(
                "Invalid format for '",
            ).concat(key.as_str()).concat("'. Expected: ").concat(format.as_str()),
            NotificationParseError::InternalParse(e) => e.clone(),
            NotificationParseError::InternalBuild(e) => e.clone(),
            NotificationParseError::UnableToReadFile(path, e) => String::from_str(
                "Unable to read the desired file.\nPath: ",
            ).concat(path.as_str()).concat("\nError: ").concat(e.as_str()),
            NotificationParseError::UnableToOpenFile(path, e) => String::from_str(
                "Unable to open the desired file.\nPath: ",
            ).concat(path.as_str()).concat("\nError: ").concat(e.as_str()),
        }
    }
}

impl ConfigError for NotificationParseError {
    fn message(&self) -> (text: String)
        ensures
            text@ == self.text(),
    {
        self.to_string()
    }
}

} // verus!
