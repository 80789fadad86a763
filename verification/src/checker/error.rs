//! What can be wrong with the configuration of a check.

use vstd::prelude::*;
use vstd::string::*;
use crate::checker::structs::CheckerType;
use crate::parser::error::ConfigError;
use crate::parser::keys::{ConfigKey, ConfigKeyInvalidFormat};

verus! {

/// Why the configuration of a service was refused.
#[derive(Debug)]
pub enum CheckerParseError {
    KeyNotFoundAt(ConfigKey, CheckerType),
    KeyNotFound(ConfigKey),
    InvalidType(String),
    InvalidFormat(ConfigKey, ConfigKeyInvalidFormat),
    InternalParse(String),
}

impl CheckerParseError {
    /// The error in words.
    pub open spec fn text(self) -> Seq<char> {
        match self {
            CheckerParseError::KeyNotFoundAt(key, c_type) => "Key "@ + key.spec_name()
                + " is mandatory for a service of type "@ + c_type.spec_name() + "."@,
            CheckerParseError::KeyNotFound(key) => "Key '"@ + key.spec_name()
                + "' is mandatory."@,
            CheckerParseError::InvalidType(t) => "Invalid type informed: "@ + t@ + "."@,
            CheckerParseError::InvalidFormat(key, format) => "Invalid format for '"@
                + key.spec_name() + "'. Expected: "@ + format.text(),
            CheckerParseError::InternalParse(e) => e@,
        }
    }

    /// The error in words.
    pub fn to_string(&self) -> (text: String)
        ensures
            text@ == self.text(),
    {
        match self {
            CheckerParseError::KeyNotFoundAt(key, c_type) => String::from_str("Key ").concat(
                key.as_str(),
            ).concat(" is mandatory for a service of type ").concat(c_type.name()).concat("."),
            CheckerParseError::KeyNotFound(key) => String::from_str("Key '").concat(
                key.as_str(),
            ).concat("' is mandatory."),
            CheckerParseError::InvalidType(t) => String::from_str(
                "Invalid type informed: ",
            ).concat(t.as_str()).concat("."),
            CheckerParseError::InvalidFormat(key, format) => {
                let expected = format.to_string();
                String::from_str("Invalid format for '").concat(key.as_str()).concat(
                    "'. Expected: ",
                ).concat(expected.as_str())
            },
            CheckerParseError::InternalParse(e) => e.clone(),
        }
    }
}

impl ConfigError for CheckerParseError {
    fn message(&self) -> (text: String)
        ensures
            text@ == self.text(),
    {
        self.to_string()
    }
}

} // verus!
