//! What can go wrong while a configuration is read.

use vstd::prelude::*;
use vstd::string::*;

verus! {

/// An error of the configuration, whatever part of it found it: something
/// that can say in words what is wrong.
pub trait ConfigError {
    fn message(&self) -> String;
}

/// The configuration file could not be had or understood. Each variant
/// carries the words of the failure underneath.
#[derive(Debug)]
pub enum ConfigFileError {
    UnableToOpen(String),
    UnableToRead(String),
    UnableToScan(String),
}

impl ConfigFileError {
    /// The error in words.
    pub open spec fn text(self) -> Seq<char> {
        match self {
            ConfigFileError::UnableToOpen(err) => "Unable to open the config file: "@ + err@,
            ConfigFileError::UnableToRead(err) => "Unable to read the config file: "@ + err@,
            ConfigFileError::UnableToScan(err) => "Unable to create a base scan of config file: "@
                + err@,
        }
    }

    /// The error in words.
    pub fn to_string(&self) -> (text: String)
        ensures
            text@ == self.text(),
    {
        match self {
            ConfigFileError::UnableToOpen(err) => String::from_str(
                "Unable to open the config file: ",
            ).concat(err.as_str()),
            ConfigFileError::UnableToRead(err) => String::from_str(
                "Unable to read the config file: ",
            ).concat(err.as_str()),
            ConfigFileError::UnableToScan(err) => String::from_str(
                "Unable to create a base scan of config file: ",
            ).concat(err.as_str()),
        }
    }
}

impl ConfigError for ConfigFileError {
    fn message(&self) -> (text: String)
        ensures
            text@ == self.text(),
    {
        self.to_string()
    }
}

/// The configuration was read but holds nothing to run.
#[derive(Clone, Copy, Debug, PartialEq, Eq, Structural)]
pub enum ConfigParseError {
    NoServiceProvided,
}

impl ConfigParseError {
    /// The error in words.
    pub open spec fn text(self) -> Seq<char> {
        match self {
            ConfigParseError::NoServiceProvided => "None service provided, aborting."@,
        }
    }

    /// The error in words.
    pub fn to_string(&self) -> (text: String)
        ensures
            text@ == self.text(),
    {
        match self {
            ConfigParseError::NoServiceProvided => String::from_str(
                "None service provided, aborting.",
            ),
        }
    }
}

impl ConfigError for ConfigParseError {
    fn message(&self) -> (text: String)
        ensures
            text@ == self.text(),
    {
        self.to_string()
    }
}

} // verus!
