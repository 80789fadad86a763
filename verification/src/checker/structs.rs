//! What a check is and what it reports.

use vstd::prelude::*;
use vstd::string::*;
use crate::text::str_eq;

verus! {

/// The protocols a service can be checked over.
#[derive(Clone, Copy, Debug, PartialEq, Eq, Structural)]
pub enum CheckerType {
    Web,
    Server,
}

impl CheckerType {
    /// The word that names this protocol in a configuration.
    pub open spec fn spec_name(self) -> Seq<char> {
        match self {
            CheckerType::Web => "web"@,
            CheckerType::Server => "server"@,
        }
    }

    /// The word that names this protocol in a configuration.
    pub fn name(&self) -> (name: &'static str)
        ensures
            name@ == self.spec_name(),
    {
        match self {
            CheckerType::Web => "web",
            CheckerType::Server => "server",
        }
    }

    /// The word that names this protocol, as an owned string.
    pub fn to_string(&self) -> (text: String)
        ensures
            text@ == self.spec_name(),
    {
        String::from_str(self.name())
    }

    /// Reads a protocol from its configuration word: `web` or `server`,
    /// written exactly so. Any other word is refused with a message that
    /// repeats it.
    pub fn from_str(s: &str) -> (parsed: Result<CheckerType, String>)
        ensures
            s@ == "web"@ ==> parsed == Ok::<CheckerType, String>(CheckerType::Web),
            s@ != "web"@ && s@ == "server"@ ==> parsed == Ok::<CheckerType, String>(
                CheckerType::Server,
            ),
            s@ != "web"@ && s@ != "server"@ ==> (parsed matches Err(msg) && msg@
                == "Is not a valid type: "@ + s@),
    {
        if str_eq(s, "web") {
            Ok(CheckerType::Web)
        } else if str_eq(s, "server") {
            Ok(CheckerType::Server)
        } else {
            Err(String::from_str("Is not a valid type: ").concat(s))
        }
    }
}

/// How a check ended.
#[derive(Clone, Copy, Debug, PartialEq, Eq, Structural)]
pub enum CheckerStatus {
    Success,
    Error,
    Timeout,
}

impl CheckerStatus {
    /// The status as it is written in logs and notifications.
    pub open spec fn spec_name(self) -> Seq<char> {
        match self {
            CheckerStatus::Success => "Success"@,
            CheckerStatus::Error => "Error"@,
            CheckerStatus::Timeout => "Timeout"@,
        }
    }

    /// The status as it is written in logs and notifications.
    pub fn name(&self) -> (name: &'static str)
        ensures
            name@ == self.spec_name(),
    {
        match self {
            CheckerStatus::Success => "Success",
            CheckerStatus::Error => "Error",
            CheckerStatus::Timeout => "Timeout",
        }
    }

    /// The status as an owned string.
    pub fn to_string(&self) -> (text: String)
        ensures
            text@ == self.spec_name(),
    {
        String::from_str(self.name())
    }

    /// Whether the check both connected and found what it expected.
    pub fn is_success(&self) -> (ok: bool)
        ensures
            ok == (*self == CheckerStatus::Success),
    {
        match self {
            CheckerStatus::Success => true,
            _ => false,
        }
    }
}

/// The outcome of one execution of a check.
#[derive(Debug)]
pub struct CheckerResult {
    pub service_name: String,
    pub status: CheckerStatus,
    pub message: String,
}

/// A `CheckerResult` as plain values.
pub struct CheckerResultView {
    pub service_name: Seq<char>,
    pub status: CheckerStatus,
    pub message: Seq<char>,
}

impl View for CheckerResult {
    type V = CheckerResultView;

    open spec fn view(&self) -> CheckerResultView {
        CheckerResultView {
            service_name: self.service_name@,
            status: self.status,
            message: self.message@,
        }
    }
}

impl CheckerResultView {
    /// Whether this result has to reach the notifiers.
    pub open spec fn needs_notification(self) -> bool {
        self.status != CheckerStatus::Success
    }

    /// The one-line rendering of a result.
    pub open spec fn text(self) -> Seq<char> {
        "Service: "@ + self.service_name + " - Status: "@ + self.status.spec_name()
            + " - Message: "@ + self.message
    }
}

impl CheckerResult {
    /// A result for `service_name` with the given status and message.
    pub fn new(service_name: String, status: CheckerStatus, message: String) -> (result: Self)
        ensures
            result.service_name == service_name,
            result.status == status,
            result.message == message,
    {
        Self { service_name, status, message }
    }

    /// Whether this result has to reach the notifiers: every status but
    /// `Success` does.
    pub fn needs_notification(&self) -> (needed: bool)
        ensures
            needed == self@.needs_notification(),
    {
        !self.status.is_success()
    }

    /// `Service: <name> - Status: <status> - Message: <message>`.
    pub fn to_string(&self) -> (text: String)
        ensures
            text@ == self@.text(),
    {
        String::from_str("Service: ").concat(self.service_name.as_str()).concat(
            " - Status: ",
        ).concat(self.status.name()).concat(" - Message: ").concat(self.message.as_str())
    }
}

} // verus!
