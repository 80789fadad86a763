//! Checks: what they are configured with and how their outcome is judged.

use vstd::prelude::*;
use crate::parser::keys::ConfigKey;
use crate::parser::yaml::Node;

pub mod error;
pub mod server;
pub mod structs;
pub mod web;

pub use server::ServerChecker;
pub use web::WebChecker;

use error::CheckerParseError;
use server::{given, server_checker_of, ServerCheckerView, SocketLookup};
use structs::CheckerType;
use web::{web_checker_of, WebCheckerView};

verus! {

/// The check a task runs, one variant for each protocol.
#[derive(Debug)]
pub enum Checker {
    Web(Box<WebChecker>),
    Server(ServerChecker),
}

/// A check as plain values.
pub enum CheckerView {
    Web(WebCheckerView),
    Server(ServerCheckerView),
}

impl View for Checker {
    type V = CheckerView;

    open spec fn view(&self) -> CheckerView {
        match self {
            Checker::Web(checker) => CheckerView::Web(checker@),
            Checker::Server(checker) => CheckerView::Server(checker@),
        }
    }
}

/// The timeout that the attributes of a service ask for, in seconds: the
/// value of `timeout` where it is an integer above zero, none otherwise.
pub open spec fn spec_timeout(attrs: Node) -> Option<u64> {
    match attrs.spec_get(ConfigKey::Timeout.spec_name()) {
        Some(Node::Integer(time)) => if time > 0 {
            Some(time as u64)
        } else {
            None
        },
        _ => None,
    }
}

/// What the word `word` says of the protocol of a service.
pub open spec fn checker_type_of(word: Seq<char>) -> Result<CheckerType, Seq<char>> {
    if word == "web"@ {
        Ok(CheckerType::Web)
    } else if word == "server"@ {
        Ok(CheckerType::Server)
    } else {
        Err("Is not a valid type: "@ + word)
    }
}

/// What the configuration `data` of a service is read as: the key `type`
/// says which check it is, and the rest is read as that check. A server
/// check is read with the lookup `lookup` of its socket.
pub open spec fn checker_of(data: Node, lookup: Option<SocketLookup>) -> Result<
    CheckerView,
    CheckerRefusal,
> {
    match data.spec_get(ConfigKey::Type.spec_name()) {
        Some(Node::String(word)) => match checker_type_of(word@) {
            Ok(CheckerType::Web) => match web_checker_of(data) {
                Ok(checker) => Ok(CheckerView::Web(checker)),
                Err(e) => Err(CheckerRefusal::Known(e)),
            },
            Ok(CheckerType::Server) => match server_checker_of(data, lookup) {
                Ok(checker) => Ok(CheckerView::Server(checker)),
                Err(refusal) => Err(refusal),
            },
            Err(msg) => Err(CheckerRefusal::Words(msg)),
        },
        _ => Err(CheckerRefusal::Known(CheckerParseError::KeyNotFound(ConfigKey::Type))),
    }
}

/// Why a check was refused, as a contract says it: one of the errors that
/// carry no text of their own, or the words of an `InternalParse`.
pub enum CheckerRefusal {
    Known(CheckerParseError),
    Words(Seq<char>),
}

impl CheckerRefusal {
    /// Whether `error` is this refusal.
    pub open spec fn describes(self, error: CheckerParseError) -> bool {
        match self {
            CheckerRefusal::Known(e) => error == e,
            CheckerRefusal::Words(msg) => error matches CheckerParseError::InternalParse(words)
                && words@ == msg,
        }
    }
}

impl Checker {
    /// The timeout that the attributes of a service ask for, in seconds.
    /// It never fails: a value that is no integer above zero means no
    /// timeout.
    pub fn timeout(service_attrs: &Node) -> (timeout: Result<Option<u64>, CheckerParseError>)
        ensures
            timeout == Ok::<Option<u64>, CheckerParseError>(spec_timeout(*service_attrs)),
    {
        match service_attrs.get(ConfigKey::Timeout.as_str()) {
            Some(Node::Integer(time)) => {
                if *time > 0 {
                    Ok(Some(*time as u64))
                } else {
                    Ok(None)
                }
            },
            _ => Ok(None),
        }
    }

    /// Reads the check of a service from its configuration. A server
    /// check is read with the lookup `lookup` of its socket.
    pub fn try_from(config: &Node, lookup: Option<&SocketLookup>) -> (parsed: Result<
        Checker,
        CheckerParseError,
    >)
        ensures
            match parsed {
                Ok(checker) => checker_of(*config, given(lookup)) == Ok::<
                    CheckerView,
                    CheckerRefusal,
                >(checker@),
                Err(e) => checker_of(*config, given(lookup)) matches Err(refusal)
                    && refusal.describes(e),
            },
    {
        let service_type = match config.get(ConfigKey::Type.as_str()) {
            Some(Node::String(word)) => match CheckerType::from_str(word.as_str()) {
                Ok(service_type) => service_type,
                Err(msg) => {
                    return Err(CheckerParseError::InternalParse(msg));
                },
            },
            _ => {
                return Err(CheckerParseError::KeyNotFound(ConfigKey::Type));
            },
        };
        match service_type {
            CheckerType::Web => match WebChecker::try_from(config) {
                Ok(web_checker) => Ok(Checker::Web(Box::new(web_checker))),
                Err(e) => Err(e),
            },
            CheckerType::Server => match ServerChecker::try_from(config, lookup) {
                Ok(server_checker) => Ok(Checker::Server(server_checker)),
                Err(e) => Err(e),
            },
        }
    }
}

} // verus!
