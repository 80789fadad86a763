//! The HTTP check: does a GET answer with the expected status.

use vstd::prelude::*;
use vstd::string::*;
use crate::checker::error::CheckerParseError;
use crate::checker::structs::{CheckerResult, CheckerResultView, CheckerStatus, CheckerType};
use crate::checker::{spec_timeout, Checker};
use crate::parser::keys::{ConfigKey, ConfigKeyInvalidFormat};
use crate::parser::yaml::Node;

verus! {

/// How `reqwest::StatusCode` writes the status `code` with `{}`: the number
/// and the reason phrase that goes with it.
pub uninterp spec fn status_display(code: u16) -> Seq<char>;

/// Whether `reqwest::header::HeaderName` accepts `name` as the name of a
/// header.
pub uninterp spec fn header_name_accepted(name: Seq<char>) -> bool;

/// Whether a header can have the value `value`: every character of it is a
/// tab or is neither a control character nor DEL.
pub open spec fn header_value_accepted(value: Seq<char>) -> bool {
    forall|i: int|
        0 <= i < value.len() ==> {
            ||| (#[trigger] value[i]) as u32 == 9
            ||| (value[i] as u32 >= 32 && value[i] as u32 != 127)
        }
}

/// `Display` of `reqwest::StatusCode`, on the status that
/// `StatusCode::from_u16` makes of `code`. `from_u16` takes the numbers from
/// 100 to 999 and no others, so only those are asked for. The text is
/// named, not spelled out.
#[verifier::external_body]
fn status_text(code: u16) -> (text: String)
    requires
        100 <= code <= 999,
    ensures
        text@ == status_display(code),
{
    reqwest::StatusCode::from_u16(code).map(|status| status.to_string()).unwrap_or_default()
}

/// `FromStr` of `reqwest::header::HeaderName`: whether `name` is taken as
/// the name of a header. The rule is named, not spelled out.
#[verifier::external_body]
fn header_name_ok(name: &str) -> (ok: bool)
    ensures
        ok == header_name_accepted(name@),
{
    name.parse::<reqwest::header::HeaderName>().is_ok()
}

/// `reqwest::header::HeaderValue::from_str`: whether `value` is taken as
/// the value of a header. It refuses a text that holds a byte under 32
/// other than tab, or the byte 127, and takes every other text.
#[verifier::external_body]
fn header_value_ok(value: &str) -> (ok: bool)
    ensures
        ok == header_value_accepted(value@),
{
    reqwest::header::HeaderValue::from_str(value).is_ok()
}

/// An HTTP status: a number from 100 to 999.
#[derive(Clone, Copy, Debug, PartialEq, Eq, Structural)]
pub struct StatusCode {
    code: u16,
}

impl View for StatusCode {
    type V = u16;

    closed spec fn view(&self) -> u16 {
        self.code
    }
}

impl StatusCode {
    #[verifier::type_invariant]
    spec fn in_range(self) -> bool {
        100 <= self.code <= 999
    }

    /// The status with the number `code`, if there is one: the numbers from
    /// 100 to 999 are statuses, no others.
    pub fn from_u16(code: u16) -> (status: Option<StatusCode>)
        ensures
            status is Some <==> 100 <= code <= 999,
            status matches Some(s) ==> s@ == code,
    {
        if 100 <= code && code <= 999 {
            Some(StatusCode { code })
        } else {
            None
        }
    }

    /// The number of this status.
    pub fn as_u16(&self) -> (code: u16)
        ensures
            code == self@,
            100 <= code <= 999,
    {
        proof {
            use_type_invariant(self);
        }
        self.code
    }

    /// The status as it is written: its number and reason phrase.
    pub fn to_string(&self) -> (text: String)
        ensures
            text@ == status_display(self@),
    {
        proof {
            use_type_invariant(self);
        }
        status_text(self.code)
    }
}

/// The headers of a list, as plain text.
pub open spec fn header_texts(headers: Seq<(String, String)>) -> Seq<(Seq<char>, Seq<char>)> {
    headers.map_values(|h: (String, String)| (h.0@, h.1@))
}

/// A web check as plain values.
pub struct WebCheckerView {
    pub url: Seq<char>,
    pub expected_code: u16,
    pub timeout: Option<u64>,
    pub headers: Seq<(Seq<char>, Seq<char>)>,
}

/// Collects what a web check is made of.
#[derive(Debug)]
pub struct WebCheckerBuilder {
    url: String,
    expected_code: StatusCode,
    timeout: Option<u64>,
    headers: Vec<(String, String)>,
}

impl View for WebCheckerBuilder {
    type V = WebCheckerView;

    closed spec fn view(&self) -> WebCheckerView {
        WebCheckerView {
            url: self.url@,
            expected_code: self.expected_code@,
            timeout: self.timeout,
            headers: header_texts(self.headers@),
        }
    }
}

impl WebCheckerBuilder {
    fn new(url: &str, expected_code: StatusCode) -> (builder: Self)
        ensures
            builder@ == (WebCheckerView {
                url: url@,
                expected_code: expected_code@,
                timeout: None,
                headers: Seq::empty(),
            }),
    {
        let builder = Self {
            url: String::from_str(url),
            expected_code,
            timeout: None,
            headers: Vec::new(),
        };
        assert(header_texts(builder.headers@) =~= Seq::empty());
        builder
    }

    /// Adds `headers` after the headers that are there. Where a name comes
    /// twice the later value is the one that is sent.
    pub fn headers(self, headers: Vec<(String, String)>) -> (builder: Self)
        ensures
            builder@ == (WebCheckerView {
                headers: self@.headers + header_texts(headers@),
                ..self@
            }),
    {
        let mut builder = self;
        let mut headers = headers;
        let ghost before = builder.headers@;
        let ghost added = headers@;
        builder.headers.append(&mut headers);
        assert(header_texts(before + added) =~= header_texts(before) + header_texts(added));
        builder
    }

    /// Gives the request `secs` seconds to answer.
    pub fn timeout(self, secs: u64) -> (builder: Self)
        ensures
            builder@ == (WebCheckerView { timeout: Some(secs), ..self@ }),
    {
        let mut builder = self;
        builder.timeout = Some(secs);
        builder
    }

    /// The check that was described.
    pub fn build(self) -> (checker: WebChecker)
        ensures
            checker@ == self@,
    {
        WebChecker {
            url: self.url,
            expected_code: self.expected_code,
            timeout: self.timeout,
            headers: self.headers,
        }
    }
}

/// A check that passes when a GET of `url` answers with `expected_code`.
#[derive(Debug)]
pub struct WebChecker {
    url: String,
    expected_code: StatusCode,
    timeout: Option<u64>,
    headers: Vec<(String, String)>,
}

impl View for WebChecker {
    type V = WebCheckerView;

    closed spec fn view(&self) -> WebCheckerView {
        WebCheckerView {
            url: self.url@,
            expected_code: self.expected_code@,
            timeout: self.timeout,
            headers: header_texts(self.headers@),
        }
    }
}

/// The header that an entry of the `headers` mapping gives, where
/// `name_ok` and `value_ok` say whether its key and its value can be the
/// name and the value of a header: key and value, where both are texts
/// that are not empty and both can be; nothing otherwise.
pub open spec fn header_given(entry: (Node, Node), name_ok: bool, value_ok: bool) -> Option<
    (Seq<char>, Seq<char>),
> {
    match entry {
        (Node::String(name), Node::String(value)) => if name@.len() > 0 && value@.len() > 0
            && name_ok && value_ok {
            Some((name@, value@))
        } else {
            None
        },
        _ => None,
    }
}

/// The header that an entry of the `headers` mapping gives.
pub open spec fn header_of(entry: (Node, Node)) -> Option<(Seq<char>, Seq<char>)> {
    match entry {
        (Node::String(name), Node::String(value)) => header_given(
            entry,
            header_name_accepted(name@),
            header_value_accepted(value@),
        ),
        _ => None,
    }
}

/// The headers that the entries of a `headers` mapping give, in their
/// order. Entries that give none are passed over.
pub open spec fn accepted_headers(entries: Seq<(Node, Node)>) -> Seq<(Seq<char>, Seq<char>)>
    decreases entries.len(),
{
    if entries.len() == 0 {
        Seq::empty()
    } else {
        let before = accepted_headers(entries.drop_last());
        match header_of(entries.last()) {
            Some(header) => before.push(header),
            None => before,
        }
    }
}

/// The headers that the configuration of a web check asks for.
pub open spec fn configured_headers(data: Node) -> Seq<(Seq<char>, Seq<char>)> {
    match data.spec_get(ConfigKey::Headers.spec_name()) {
        Some(Node::Hash(entries)) => accepted_headers(entries@),
        _ => Seq::empty(),
    }
}

/// What the configuration `data` of a web check is read as. The URL has to
/// be a text that is not empty, the expected status an integer from 100 to
/// 999; the timeout and the headers are optional.
pub open spec fn web_checker_of(data: Node) -> Result<WebCheckerView, CheckerParseError> {
    match data.spec_get(ConfigKey::Url.spec_name()) {
        Some(Node::String(url)) if url@.len() > 0 => match data.spec_get(
            ConfigKey::ExpectedHttpCode.spec_name(),
        ) {
            Some(Node::Integer(code)) if 100 <= code <= 999 => Ok(
                WebCheckerView {
                    url: url@,
                    expected_code: code as u16,
                    timeout: spec_timeout(data),
                    headers: configured_headers(data),
                },
            ),
            _ => Err(
                CheckerParseError::InvalidFormat(
                    ConfigKey::ExpectedHttpCode,
                    ConfigKeyInvalidFormat(ConfigKey::ExpectedHttpCode),
                ),
            ),
        },
        _ => Err(CheckerParseError::KeyNotFoundAt(ConfigKey::Url, CheckerType::Web)),
    }
}

/// What a web check that expects `expected` makes of an answer with the
/// status `status`, which is written `written`, for the service `service`:
/// a success where the status is the expected one, an error where it is
/// another.
pub open spec fn answered_verdict(
    expected: u16,
    service: Seq<char>,
    status: u16,
    written: Seq<char>,
) -> CheckerResultView {
    if status == expected {
        CheckerResultView {
            service_name: service,
            status: CheckerStatus::Success,
            message: "Service available with status "@ + written,
        }
    } else {
        CheckerResultView {
            service_name: service,
            status: CheckerStatus::Error,
            message: "Service unavailable with status "@ + written,
        }
    }
}

/// What a web check makes of a request that got no answer, for the service
/// `service`: an error that repeats the words of the failure.
pub open spec fn unanswered_verdict(service: Seq<char>, failure: Seq<char>) -> CheckerResultView {
    CheckerResultView {
        service_name: service,
        status: CheckerStatus::Error,
        message: "Service unavailable: "@ + failure,
    }
}

/// What a web check that expects `expected` makes of the outcome of its
/// request, for the service `service`.
pub open spec fn web_verdict(
    expected: u16,
    service: Seq<char>,
    response: Result<StatusCode, String>,
) -> CheckerResultView {
    match response {
        Ok(status) => answered_verdict(expected, service, status@, status_display(status@)),
        Err(err) => unanswered_verdict(service, err@),
    }
}

impl WebChecker {
    /// Starts the description of a check of `url` that expects
    /// `expected_code`.
    pub fn builder(url: &str, expected_code: StatusCode) -> (builder: WebCheckerBuilder)
        ensures
            builder@ == (WebCheckerView {
                url: url@,
                expected_code: expected_code@,
                timeout: None,
                headers: Seq::empty(),
            }),
    {
        WebCheckerBuilder::new(url, expected_code)
    }

    /// The status the check expects.
    pub fn expected_code(&self) -> (code: &StatusCode)
        ensures
            code@ == self@.expected_code,
    {
        &self.expected_code
    }

    /// The address the check asks.
    pub fn url(&self) -> (url: &str)
        ensures
            url@ == self@.url,
    {
        self.url.as_str()
    }

    /// The seconds the request is given, where it is given a limit.
    pub fn timeout(&self) -> (secs: Option<u64>)
        ensures
            secs == self@.timeout,
    {
        self.timeout
    }

    /// The headers the request carries, in the order in which they are set.
    pub fn headers(&self) -> (headers: &Vec<(String, String)>)
        ensures
            header_texts(headers@) == self@.headers,
    {
        &self.headers
    }

    /// Judges an answer with the status `status`, which is written
    /// `written`, for the service `service`.
    pub fn answered(&self, service: &str, status: StatusCode, written: &str) -> (result:
        CheckerResult)
        ensures
            result@ == answered_verdict(self@.expected_code, service@, status@, written@),
    {
        if status.as_u16() == self.expected_code.as_u16() {
            CheckerResult::new(
                String::from_str(service),
                CheckerStatus::Success,
                String::from_str("Service available with status ").concat(written),
            )
        } else {
            CheckerResult::new(
                String::from_str(service),
                CheckerStatus::Error,
                String::from_str("Service unavailable with status ").concat(written),
            )
        }
    }

    /// Judges a request that got no answer but the failure `failure`, for
    /// the service `service`.
    pub fn unanswered(service: &str, failure: &str) -> (result: CheckerResult)
        ensures
            result@ == unanswered_verdict(service@, failure@),
    {
        CheckerResult::new(
            String::from_str(service),
            CheckerStatus::Error,
            String::from_str("Service unavailable: ").concat(failure),
        )
    }

    /// Judges the outcome of the request of this check, made for the
    /// service `service`: `Ok` with the status of the answer, or `Err`
    /// with the words of the failure where there was no answer.
    pub fn check(&self, service: &str, response: Result<StatusCode, String>) -> (result:
        CheckerResult)
        ensures
            result@ == web_verdict(self@.expected_code, service@, response),
    {
        match response {
            Ok(status) => {
                let written = status.to_string();
                self.answered(service, status, written.as_str())
            },
            Err(err) => Self::unanswered(service, err.as_str()),
        }
    }

    /// Reads a web check from its configuration.
    pub fn try_from(data: &Node) -> (parsed: Result<WebChecker, CheckerParseError>)
        ensures
            match parsed {
                Ok(checker) => web_checker_of(*data) == Ok::<WebCheckerView, CheckerParseError>(
                    checker@,
                ),
                Err(e) => web_checker_of(*data) == Err::<WebCheckerView, CheckerParseError>(e),
            },
    {
        let url: &str = match data.get(ConfigKey::Url.as_str()) {
            Some(Node::String(text)) => {
                if text.as_str().unicode_len() == 0 {
                    return Err(CheckerParseError::KeyNotFoundAt(ConfigKey::Url, CheckerType::Web));
                }
                text.as_str()
            },
            _ => {
                return Err(CheckerParseError::KeyNotFoundAt(ConfigKey::Url, CheckerType::Web));
            },
        };
        let expected: Option<StatusCode> = match data.get(ConfigKey::ExpectedHttpCode.as_str()) {
            Some(Node::Integer(code)) => {
                if 0 <= *code && *code <= 65535 {
                    StatusCode::from_u16(*code as u16)
                } else {
                    None
                }
            },
            _ => None,
        };
        let expected_code = match expected {
            Some(code) => code,
            None => {
                return Err(
                    CheckerParseError::InvalidFormat(
                        ConfigKey::ExpectedHttpCode,
                        ConfigKeyInvalidFormat::new(ConfigKey::ExpectedHttpCode),
                    ),
                );
            },
        };
        let mut web_checker = WebChecker::builder(url, expected_code);
        match Checker::timeout(data) {
            Ok(Some(secs)) => {
                web_checker = web_checker.timeout(secs);
            },
            _ => {},
        }
        match data.get(ConfigKey::Headers.as_str()) {
            Some(Node::Hash(entries)) => {
                let headers = read_headers(entries);
                web_checker = web_checker.headers(headers);
            },
            _ => {},
        }
        Ok(web_checker.build())
    }
}

/// The header that an entry of the `headers` mapping gives, where
/// `name_ok` and `value_ok` say whether its key and its value can be the
/// name and the value of a header.
pub fn header_from(entry: &(Node, Node), name_ok: bool, value_ok: bool) -> (header: Option<
    (String, String),
>)
    ensures
        match header {
            Some(h) => header_given(*entry, name_ok, value_ok) == Some((h.0@, h.1@)),
            None => header_given(*entry, name_ok, value_ok) is None,
        },
{
    match (&entry.0, &entry.1) {
        (Node::String(name), Node::String(value)) => {
            if name.as_str().unicode_len() > 0 && value.as_str().unicode_len() > 0 && name_ok
                && value_ok {
                Some((name.clone(), value.clone()))
            } else {
                None
            }
        },
        _ => None,
    }
}

/// The headers that the entries of a `headers` mapping give.
fn read_headers(entries: &Vec<(Node, Node)>) -> (headers: Vec<(String, String)>)
    ensures
        header_texts(headers@) == accepted_headers(entries@),
{
    let mut headers: Vec<(String, String)> = Vec::new();
    let mut i: usize = 0;
    assert(entries@.take(0) =~= Seq::empty());
    assert(header_texts(headers@) =~= Seq::empty());
    while i < entries.len()
        invariant
            i <= entries@.len(),
            header_texts(headers@) == accepted_headers(entries@.take(i as int)),
        decreases entries@.len() - i,
    {
        proof {
            let upto = entries@.take(i + 1);
            assert(upto.drop_last() =~= entries@.take(i as int));
            assert(upto.last() == entries@[i as int]);
        }
        let ghost before = headers@;
        let (name_ok, value_ok) = match (&entries[i].0, &entries[i].1) {
            (Node::String(name), Node::String(value)) => (
                header_name_ok(name.as_str()),
                header_value_ok(value.as_str()),
            ),
            _ => (false, false),
        };
        match header_from(&entries[i], name_ok, value_ok) {
            Some(header) => {
                let ghost texts = (header.0@, header.1@);
                headers.push(header);
                assert(header_texts(headers@) =~= header_texts(before).push(texts));
            },
            None => {},
        }
        i = i + 1;
    }
    assert(entries@.take(entries@.len() as int) =~= entries@);
    headers
}

} // verus!
