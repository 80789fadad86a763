//! Notification by e-mail: who the message is from, whom it reaches and
//! what it says. Sending it is the caller's part.

use vstd::prelude::*;
use vstd::string::*;
use crate::checker::structs::{CheckerResult, CheckerResultView};
use crate::notification::error::NotificationParseError;
use crate::notification::NotificationType;
use crate::parser::keys::ConfigKey;
use crate::parser::yaml::Node;
use crate::text::{lines_of, lines_text, texts, trim_text, trimmed};

verus! {

/// What `FromStr` of `lettre::Address` answers to the text `text`: nothing
/// where it takes the text as a mail address, the words of its error where
/// it does not.
pub uninterp spec fn address_refusal(text: Seq<char>) -> Option<Seq<char>>;

/// `FromStr` of `lettre::Address`, and `Display` of its error: whether
/// `text` is taken as a mail address, and the words of the refusal where it
/// is not. The answer is named, not spelled out.
#[verifier::external_body]
fn check_address(text: &str) -> (refusal: Option<String>)
    ensures
        match refusal {
            Some(words) => address_refusal(text@) == Some(words@),
            None => address_refusal(text@) is None,
        },
{
    match text.parse::<lettre::Address>() {
        Ok(_) => None,
        Err(err) => Some(err.to_string()),
    }
}

/// The name and password that open the mail server.
#[derive(Debug)]
pub struct MailCredentials {
    pub user: String,
    pub pass: String,
}

/// What the configuration has to say of a mail notifier before anything
/// is looked up: the server, the sender, the receiver, and where the
/// credentials are kept, if anywhere.
#[derive(Debug)]
pub struct MailSettings {
    pub smtp_domain: String,
    pub from: String,
    pub to: String,
    pub credentials_path: Option<String>,
}

/// What became of the attempt to read the credentials file.
#[derive(Debug)]
pub enum CredentialsFile {
    /// The configuration names no file.
    NotGiven,
    /// There is nothing at the path.
    Missing,
    /// The file at the path could not be opened: the path and the failure.
    OpenFailed(String, String),
    /// The file at the path could not be read: the path and the failure.
    ReadFailed(String, String),
    /// What the file holds.
    Content(String),
}

/// A mail notifier as plain values.
pub struct MailNotifierView {
    pub smtp_domain: Seq<char>,
    pub credentials: Option<(Seq<char>, Seq<char>)>,
    pub from: Seq<char>,
    pub to: Seq<char>,
    pub cc: Seq<Seq<char>>,
    pub bcc: Seq<Seq<char>>,
}

/// The credentials as plain text.
pub open spec fn credentials_text(credentials: Option<MailCredentials>) -> Option<
    (Seq<char>, Seq<char>),
> {
    match credentials {
        Some(c) => Some((c.user@, c.pass@)),
        None => None,
    }
}

/// Why a mail notifier was refused, as a contract says it: one of the
/// errors that carry no text of their own, or the words of an
/// `InternalParse`.
pub enum MailRefusal {
    Known(NotificationParseError),
    Words(Seq<char>),
}

impl MailRefusal {
    /// Whether `error` is this refusal.
    pub open spec fn describes(self, error: NotificationParseError) -> bool {
        match self {
            MailRefusal::Known(e) => error == e,
            MailRefusal::Words(msg) => error matches NotificationParseError::InternalParse(words)
                && words@ == msg,
        }
    }
}

/// The text under the key `key` of the mail section `data`, which has to
/// be there.
pub open spec fn required_text(data: Node, key: ConfigKey) -> Result<
    Seq<char>,
    NotificationParseError,
> {
    match data.spec_get(key.spec_name()) {
        Some(Node::String(text)) => Ok(text@),
        _ => Err(NotificationParseError::KeyNotFoundAt(key, NotificationType::Email)),
    }
}

/// The path of the credentials file that the mail section `data` names.
pub open spec fn credentials_path_of(data: Node) -> Option<Seq<char>> {
    match data.spec_get(ConfigKey::SmtpCredentials.spec_name()) {
        Some(Node::String(path)) => Some(path@),
        _ => None,
    }
}

/// The settings of the mail section `data` as plain values: server,
/// sender, receiver and credentials path. The first of the three texts
/// that is missing decides the error.
pub open spec fn settings_of(data: Node) -> Result<
    (Seq<char>, Seq<char>, Seq<char>, Option<Seq<char>>),
    NotificationParseError,
> {
    match required_text(data, ConfigKey::SmtpDomain) {
        Ok(domain) => match required_text(data, ConfigKey::MailFrom) {
            Ok(from) => match required_text(data, ConfigKey::MailTo) {
                Ok(to) => Ok((domain, from, to, credentials_path_of(data))),
                Err(e) => Err(e),
            },
            Err(e) => Err(e),
        },
        Err(e) => Err(e),
    }
}

/// Whether every item of `items` is a text.
pub open spec fn all_texts(items: Seq<Node>) -> bool {
    forall|i: int| 0 <= i < items.len() ==> (#[trigger] items[i]) is String
}

/// The texts of `items`, each without the white space at its ends.
pub open spec fn trimmed_texts(items: Seq<Node>) -> Seq<Seq<char>> {
    Seq::new(
        items.len(),
        |i: int|
            match items[i] {
                Node::String(text) => trim_text(text@),
                _ => Seq::empty(),
            },
    )
}

/// The words that refuse a list that is not written as a YAML sequence.
pub open spec fn not_an_array(key: ConfigKey) -> Seq<char> {
    "Key '"@ + key.spec_name() + "' must have a YAML Array format"@
}

/// The addresses under the list key `key` of the mail section `data`:
/// none where the key is missing, the trimmed texts of a sequence that is
/// not empty and holds texts only, and a refusal for anything else.
pub open spec fn recipients_of(data: Node, key: ConfigKey) -> Result<
    Option<Seq<Seq<char>>>,
    Seq<char>,
> {
    match data.spec_get(key.spec_name()) {
        None => Ok(None),
        Some(Node::BadValue) => Ok(None),
        Some(Node::Array(items)) => if items@.len() > 0 && all_texts(items@) {
            Ok(Some(trimmed_texts(items@)))
        } else {
            Err(not_an_array(key))
        },
        Some(_) => Err(not_an_array(key)),
    }
}

/// The words that refuse the sender or receiver address under `key`.
pub open spec fn bad_party(key: ConfigKey, words: Seq<char>) -> Seq<char> {
    "Error parsing the '"@ + key.spec_name() + "' mail address, double check it: "@ + words
}

/// The words that refuse the address `address` of the list named `list`.
pub open spec fn bad_recipient(address: Seq<char>, list: Seq<char>, words: Seq<char>) -> Seq<
    char,
> {
    "The email address '"@ + address + "' at "@ + list + " list is not valid: "@ + words
}

/// The first address of `list` that is refused, if any is: its place.
pub open spec fn first_refused(list: Seq<Seq<char>>, i: int) -> bool {
    &&& 0 <= i < list.len()
    &&& address_refusal(list[i]) is Some
    &&& forall|j: int| 0 <= j < i ==> address_refusal(#[trigger] list[j]) is None
}

/// Whether every address of `list` is taken.
pub open spec fn all_accepted(list: Seq<Seq<char>>) -> bool {
    forall|j: int| 0 <= j < list.len() ==> address_refusal(#[trigger] list[j]) is None
}

/// What the credentials file gives: nothing where none is named, the
/// first two lines as name and password where the file has them, nothing
/// where it has fewer, and a refusal where the file is missing, cannot be
/// had or is empty.
pub open spec fn credentials_of(file: CredentialsFile) -> Result<
    Option<(Seq<char>, Seq<char>)>,
    MailRefusal,
> {
    match file {
        CredentialsFile::NotGiven => Ok(None),
        CredentialsFile::Missing => Err(
            MailRefusal::Words(
                "The path in "@ + ConfigKey::SmtpCredentials.spec_name() + " does not exists."@,
            ),
        ),
        CredentialsFile::OpenFailed(path, e) => Err(
            MailRefusal::Known(NotificationParseError::UnableToOpenFile(path, e)),
        ),
        CredentialsFile::ReadFailed(path, e) => Err(
            MailRefusal::Known(NotificationParseError::UnableToReadFile(path, e)),
        ),
        CredentialsFile::Content(text) => if text@.len() == 0 {
            Err(MailRefusal::Words("Email credentials cannot be empty"@))
        } else {
            Ok(credentials_in(lines_text(text@)))
        },
    }
}

/// The credentials that the lines of a file give: the first line as name
/// and the second as password, where there are two; nothing otherwise.
pub open spec fn credentials_in(lines: Seq<Seq<char>>) -> Option<(Seq<char>, Seq<char>)> {
    if lines.len() >= 2 {
        Some((lines[0], lines[1]))
    } else {
        None
    }
}

/// The body of the alert mail for `result`.
pub open spec fn body_text(result: CheckerResultView) -> Seq<char> {
    "\n<!DOCTYPE html>\n<html>\n  <head>\n    <style>\n      p "@
        + "{margin: .5em 0 .5em 0; font-size: 16px;}"@
        + "\n    </style>\n  </head>\n  <body>\n    <h1>Toktok!</h1>\n    <p>Hello, a service reported with an unexpected status through the last verification</p>\n    <p>Service: "@
        + result.service_name + "</p>\n    <p>Reported status: "@ + result.status.spec_name()
        + "</p>\n    <p>Message: "@ + result.message + "</p>\n  </body>\n</html>\n"@
}

/// Where alert mails are sent from, through and to.
#[derive(Debug)]
pub struct MailNotifier {
    smtp_domain: String,
    credentials: Option<MailCredentials>,
    from: String,
    to: String,
    cc: Vec<String>,
    bcc: Vec<String>,
}

impl View for MailNotifier {
    type V = MailNotifierView;

    closed spec fn view(&self) -> MailNotifierView {
        MailNotifierView {
            smtp_domain: self.smtp_domain@,
            credentials: credentials_text(self.credentials),
            from: self.from@,
            to: self.to@,
            cc: texts(self.cc@),
            bcc: texts(self.bcc@),
        }
    }
}

/// Collects what a mail notifier is made of, and refuses addresses that
/// are none.
#[derive(Debug)]
pub struct MailNotifierBuilder {
    smtp_domain: String,
    credentials: Option<MailCredentials>,
    from: String,
    to: String,
    cc: Vec<String>,
    bcc: Vec<String>,
}

impl View for MailNotifierBuilder {
    type V = MailNotifierView;

    closed spec fn view(&self) -> MailNotifierView {
        MailNotifierView {
            smtp_domain: self.smtp_domain@,
            credentials: credentials_text(self.credentials),
            from: self.from@,
            to: self.to@,
            cc: texts(self.cc@),
            bcc: texts(self.bcc@),
        }
    }
}

/// Checks every address of `list`, the list named `name`, in order. The
/// first that is no mail address decides the error.
fn check_recipients(list: &Vec<String>, name: &str) -> (checked: Result<
    (),
    NotificationParseError,
>)
    ensures
        match checked {
            Ok(_) => all_accepted(texts(list@)),
            Err(e) => exists|i: int|
                {
                    &&& #[trigger] first_refused(texts(list@), i)
                    &&& e matches NotificationParseError::InternalParse(words)
                    &&& address_refusal(texts(list@)[i]) matches Some(why)
                    &&& words@ == bad_recipient(texts(list@)[i], name@, why)
                },
        },
{
    let mut i: usize = 0;
    while i < list.len()
        invariant
            i <= list@.len(),
            forall|j: int| 0 <= j < i ==> address_refusal(#[trigger] texts(list@)[j]) is None,
        decreases list@.len() - i,
    {
        let refusal = check_address(list[i].as_str());
        match MailNotifierBuilder::recipient_checked(list[i].as_str(), name, refusal) {
            Err(e) => {
                assert(first_refused(texts(list@), i as int));
                return Err(e);
            },
            Ok(_) => {},
        }
        i = i + 1;
    }
    Ok(())
}

impl MailNotifierBuilder {
    /// What the credentials file gives.
    pub fn credentials(file: CredentialsFile) -> (read: Result<
        Option<MailCredentials>,
        NotificationParseError,
    >)
        ensures
            match read {
                Ok(credentials) => credentials_of(file) == Ok::<
                    Option<(Seq<char>, Seq<char>)>,
                    MailRefusal,
                >(credentials_text(credentials)),
                Err(e) => credentials_of(file) matches Err(refusal) && refusal.describes(e),
            },
    {
        match file {
            CredentialsFile::NotGiven => Ok(None),
            CredentialsFile::Missing => Err(
                NotificationParseError::InternalParse(
                    String::from_str("The path in ").concat(
                        ConfigKey::SmtpCredentials.as_str(),
                    ).concat(" does not exists."),
                ),
            ),
            CredentialsFile::OpenFailed(path, e) => Err(
                NotificationParseError::UnableToOpenFile(path, e),
            ),
            CredentialsFile::ReadFailed(path, e) => Err(
                NotificationParseError::UnableToReadFile(path, e),
            ),
            CredentialsFile::Content(text) => {
                if text.as_str().unicode_len() == 0 {
                    return Err(
                        NotificationParseError::InternalParse(
                            String::from_str("Email credentials cannot be empty"),
                        ),
                    );
                }
                Ok(Self::credentials_from(lines_of(text.as_str())))
            },
        }
    }

    /// The credentials that the lines of a file give: the first line as
    /// name and the second as password, where there are two; nothing
    /// otherwise.
    pub fn credentials_from(lines: Vec<String>) -> (credentials: Option<MailCredentials>)
        ensures
            credentials_text(credentials) == credentials_in(texts(lines@)),
    {
        if lines.len() >= 2 {
            Some(MailCredentials { user: lines[0].clone(), pass: lines[1].clone() })
        } else {
            None
        }
    }

    /// What becomes of a sender or receiver address under `key`, where
    /// `refusal` holds the words that refuse it, if it is refused.
    pub fn party_checked(key: ConfigKey, refusal: Option<String>) -> (checked: Result<
        (),
        NotificationParseError,
    >)
        ensures
            match checked {
                Ok(_) => refusal is None,
                Err(e) => e matches NotificationParseError::InternalParse(words) && refusal matches Some(
                    why,
                ) && words@ == bad_party(key, why@),
            },
    {
        match refusal {
            Some(why) => Err(
                NotificationParseError::InternalParse(
                    String::from_str("Error parsing the '").concat(key.as_str()).concat(
                        "' mail address, double check it: ",
                    ).concat(why.as_str()),
                ),
            ),
            None => Ok(()),
        }
    }

    /// What becomes of the address `address` of the list named `list`,
    /// where `refusal` holds the words that refuse it, if it is refused.
    pub fn recipient_checked(address: &str, list: &str, refusal: Option<String>) -> (checked:
        Result<(), NotificationParseError>)
        ensures
            match checked {
                Ok(_) => refusal is None,
                Err(e) => e matches NotificationParseError::InternalParse(words) && refusal matches Some(
                    why,
                ) && words@ == bad_recipient(address@, list@, why@),
            },
    {
        match refusal {
            Some(why) => Err(
                NotificationParseError::InternalParse(
                    String::from_str("The email address '").concat(address).concat(
                        "' at ",
                    ).concat(list).concat(" list is not valid: ").concat(why.as_str()),
                ),
            ),
            None => Ok(()),
        }
    }

    /// Starts a notifier that sends through `domain` from `from` to `to`.
    /// Both addresses have to be mail addresses; the sender is looked at
    /// first.
    pub fn new(domain: &str, from: &str, to: &str, credentials: Option<MailCredentials>) -> (made:
        Result<Self, NotificationParseError>)
        ensures
            match made {
                Ok(builder) => {
                    &&& address_refusal(from@) is None
                    &&& address_refusal(to@) is None
                    &&& builder@ == (MailNotifierView {
                        smtp_domain: domain@,
                        credentials: credentials_text(credentials),
                        from: from@,
                        to: to@,
                        cc: Seq::empty(),
                        bcc: Seq::empty(),
                    })
                },
                Err(e) => e matches NotificationParseError::InternalParse(words) && (
                match address_refusal(from@) {
                    Some(why) => words@ == bad_party(ConfigKey::MailFrom, why),
                    None => address_refusal(to@) matches Some(why) && words@ == bad_party(
                        ConfigKey::MailTo,
                        why,
                    ),
                }),
            },
    {
        match Self::msg_builder(from, to) {
            Err(e) => Err(e),
            Ok(_) => {
                let builder = Self {
                    smtp_domain: String::from_str(domain),
                    credentials,
                    from: String::from_str(from),
                    to: String::from_str(to),
                    cc: Vec::new(),
                    bcc: Vec::new(),
                };
                assert(texts(builder.cc@) =~= Seq::empty());
                assert(texts(builder.bcc@) =~= Seq::empty());
                Ok(builder)
            },
        }
    }

    /// Checks the sender and the receiver of the message.
    fn msg_builder(from: &str, to: &str) -> (checked: Result<(), NotificationParseError>)
        ensures
            match checked {
                Ok(_) => address_refusal(from@) is None && address_refusal(to@) is None,
                Err(e) => e matches NotificationParseError::InternalParse(words) && (
                match address_refusal(from@) {
                    Some(why) => words@ == bad_party(ConfigKey::MailFrom, why),
                    None => address_refusal(to@) matches Some(why) && words@ == bad_party(
                        ConfigKey::MailTo,
                        why,
                    ),
                }),
            },
    {
        match Self::party_checked(ConfigKey::MailFrom, check_address(from)) {
            Err(e) => {
                return Err(e);
            },
            Ok(_) => {},
        }
        Self::party_checked(ConfigKey::MailTo, check_address(to))
    }

    /// Adds `list` to the receivers of a copy. Every address of the list
    /// has to be a mail address; the first that is none decides the error.
    pub fn cc(self, list: Vec<String>) -> (added: Result<Self, NotificationParseError>)
        ensures
            match added {
                Ok(builder) => all_accepted(texts(list@)) && builder@ == (MailNotifierView {
                    cc: self@.cc + texts(list@),
                    ..self@
                }),
                Err(e) => exists|i: int|
                    {
                        &&& #[trigger] first_refused(texts(list@), i)
                        &&& e matches NotificationParseError::InternalParse(words)
                        &&& address_refusal(texts(list@)[i]) matches Some(why)
                        &&& words@ == bad_recipient(texts(list@)[i], "cc"@, why)
                    },
            },
    {
        match check_recipients(&list, "cc") {
            Err(e) => Err(e),
            Ok(_) => {
                let mut builder = self;
                let mut list = list;
                let ghost before = builder.cc@;
                let ghost added = list@;
                builder.cc.append(&mut list);
                assert(texts(before + added) =~= texts(before) + texts(added));
                Ok(builder)
            },
        }
    }

    /// Adds `list` to the receivers of a blind copy. Every address of the
    /// list has to be a mail address; the first that is none decides the
    /// error.
    pub fn bcc(self, list: Vec<String>) -> (added: Result<Self, NotificationParseError>)
        ensures
            match added {
                Ok(builder) => all_accepted(texts(list@)) && builder@ == (MailNotifierView {
                    bcc: self@.bcc + texts(list@),
                    ..self@
                }),
                Err(e) => exists|i: int|
                    {
                        &&& #[trigger] first_refused(texts(list@), i)
                        &&& e matches NotificationParseError::InternalParse(words)
                        &&& address_refusal(texts(list@)[i]) matches Some(why)
                        &&& words@ == bad_recipient(texts(list@)[i], "bcc"@, why)
                    },
            },
    {
        match check_recipients(&list, "bcc") {
            Err(e) => Err(e),
            Ok(_) => {
                let mut builder = self;
                let mut list = list;
                let ghost before = builder.bcc@;
                let ghost added = list@;
                builder.bcc.append(&mut list);
                assert(texts(before + added) =~= texts(before) + texts(added));
                Ok(builder)
            },
        }
    }

    /// The notifier that was described.
    pub fn build(self) -> (notifier: MailNotifier)
        ensures
            notifier@ == self@,
    {
        MailNotifier {
            smtp_domain: self.smtp_domain,
            credentials: self.credentials,
            from: self.from,
            to: self.to,
            cc: self.cc,
            bcc: self.bcc,
        }
    }
}

/// The trimmed texts of the items of a sequence that holds texts only.
fn trimmed_items(items: &Vec<Node>) -> (list: Option<Vec<String>>)
    ensures
        list is Some <==> all_texts(items@),
        list matches Some(l) ==> texts(l@) == trimmed_texts(items@),
{
    let mut list: Vec<String> = Vec::new();
    let mut i: usize = 0;
    while i < items.len()
        invariant
            i <= items@.len(),
            list@.len() == i,
            forall|j: int| 0 <= j < i ==> (#[trigger] items@[j]) is String,
            forall|j: int| 0 <= j < i ==> (#[trigger] list@[j])@ == trimmed_texts(items@)[j],
        decreases items@.len() - i,
    {
        match &items[i] {
            Node::String(text) => {
                list.push(trimmed(text.as_str()));
            },
            _ => {
                return None;
            },
        }
        i = i + 1;
    }
    assert(texts(list@) =~= trimmed_texts(items@));
    Some(list)
}

/// What the mail section `data` is read as, with the credentials
/// `credentials` that its file gave: the refusal of the first thing that is
/// wrong, looked at in this order: server, sender and receiver are there;
/// sender and receiver are mail addresses; the copy list is a list and its
/// addresses are mail addresses; the same of the blind-copy list.
pub open spec fn mail_notifier_of(data: Node, credentials: Option<(Seq<char>, Seq<char>)>)
    -> Result<MailNotifierView, MailRefusal> {
    match settings_of(data) {
        Err(e) => Err(MailRefusal::Known(e)),
        Ok((domain, from, to, _)) => match address_refusal(from) {
            Some(why) => Err(MailRefusal::Words(bad_party(ConfigKey::MailFrom, why))),
            None => match address_refusal(to) {
                Some(why) => Err(MailRefusal::Words(bad_party(ConfigKey::MailTo, why))),
                None => match recipients_of(data, ConfigKey::MailCc) {
                    Err(words) => Err(MailRefusal::Words(words)),
                    Ok(cc) => match refused_in(cc, "cc"@) {
                        Some(words) => Err(MailRefusal::Words(words)),
                        None => match recipients_of(data, ConfigKey::MailBcc) {
                            Err(words) => Err(MailRefusal::Words(words)),
                            Ok(bcc) => match refused_in(bcc, "bcc"@) {
                                Some(words) => Err(MailRefusal::Words(words)),
                                None => Ok(
                                    MailNotifierView {
                                        smtp_domain: domain,
                                        credentials,
                                        from,
                                        to,
                                        cc: listed(cc),
                                        bcc: listed(bcc),
                                    },
                                ),
                            },
                        },
                    },
                },
            },
        },
    }
}

/// The addresses of an optional list.
pub open spec fn listed(list: Option<Seq<Seq<char>>>) -> Seq<Seq<char>> {
    match list {
        Some(l) => l,
        None => Seq::empty(),
    }
}

/// The words that refuse the first address of the optional list `list`,
/// named `name`, that is no mail address; nothing where all are.
pub open spec fn refused_in(list: Option<Seq<Seq<char>>>, name: Seq<char>) -> Option<Seq<char>> {
    match list {
        None => None,
        Some(l) => if exists|i: int| first_refused(l, i) {
            let i = choose|i: int| first_refused(l, i);
            Some(bad_recipient(l[i], name, address_refusal(l[i])->0))
        } else {
            None
        },
    }
}

/// In a list with a first refused address, `refused_in` speaks of that
/// address.
proof fn lemma_refused_at(l: Seq<Seq<char>>, name: Seq<char>, i: int)
    requires
        first_refused(l, i),
    ensures
        refused_in(Some(l), name) == Some(bad_recipient(l[i], name, address_refusal(l[i])->0)),
{
    let c = choose|c: int| first_refused(l, c);
    assert(c == i);
}

/// In a list whose addresses are all taken, `refused_in` finds nothing.
proof fn lemma_none_refused(l: Seq<Seq<char>>, name: Seq<char>)
    requires
        all_accepted(l),
    ensures
        refused_in(Some(l), name) is None,
{
    if exists|i: int| first_refused(l, i) {
        let c = choose|c: int| first_refused(l, c);
        assert(address_refusal(l[c]) is None);
    }
}

impl MailNotifier {
    /// Reads the settings of a mail notifier from its section of the
    /// configuration.
    pub fn settings(data: &Node) -> (read: Result<MailSettings, NotificationParseError>)
        ensures
            match read {
                Ok(s) => settings_of(*data) == Ok::<
                    (Seq<char>, Seq<char>, Seq<char>, Option<Seq<char>>),
                    NotificationParseError,
                >(
                    (
                        s.smtp_domain@,
                        s.from@,
                        s.to@,
                        match s.credentials_path {
                            Some(p) => Some(p@),
                            None => None,
                        },
                    ),
                ),
                Err(e) => settings_of(*data) == Err::<
                    (Seq<char>, Seq<char>, Seq<char>, Option<Seq<char>>),
                    NotificationParseError,
                >(e),
            },
    {
        let smtp_domain = match data.get(ConfigKey::SmtpDomain.as_str()) {
            Some(Node::String(domain)) => domain.clone(),
            _ => {
                return Err(
                    NotificationParseError::KeyNotFoundAt(
                        ConfigKey::SmtpDomain,
                        NotificationType::Email,
                    ),
                );
            },
        };
        let from = match data.get(ConfigKey::MailFrom.as_str()) {
            Some(Node::String(from)) => from.clone(),
            _ => {
                return Err(
                    NotificationParseError::KeyNotFoundAt(
                        ConfigKey::MailFrom,
                        NotificationType::Email,
                    ),
                );
            },
        };
        let to = match data.get(ConfigKey::MailTo.as_str()) {
            Some(Node::String(to)) => to.clone(),
            _ => {
                return Err(
                    NotificationParseError::KeyNotFoundAt(
                        ConfigKey::MailTo,
                        NotificationType::Email,
                    ),
                );
            },
        };
        let credentials_path = match data.get(ConfigKey::SmtpCredentials.as_str()) {
            Some(Node::String(path)) => Some(path.clone()),
            _ => None,
        };
        Ok(MailSettings { smtp_domain, from, to, credentials_path })
    }

    /// Reads the list of addresses under the list key `key` of the mail
    /// section `data`.
    pub fn recipients(data: &Node, key: ConfigKey) -> (read: Result<
        Option<Vec<String>>,
        NotificationParseError,
    >)
        ensures
            match read {
                Ok(Some(list)) => recipients_of(*data, key) == Ok::<
                    Option<Seq<Seq<char>>>,
                    Seq<char>,
                >(Some(texts(list@))),
                Ok(None) => recipients_of(*data, key) == Ok::<Option<Seq<Seq<char>>>, Seq<char>>(
                    None,
                ),
                Err(e) => e matches NotificationParseError::InternalParse(words) && recipients_of(
                    *data,
                    key,
                ) == Err::<Option<Seq<Seq<char>>>, Seq<char>>(words@),
            },
    {
        let list = match data.get(key.as_str()) {
            None => {
                return Ok(None);
            },
            Some(Node::BadValue) => {
                return Ok(None);
            },
            Some(Node::Array(items)) => {
                if items.len() > 0 {
                    trimmed_items(items)
                } else {
                    None
                }
            },
            Some(_) => None,
        };
        match list {
            Some(list) => Ok(Some(list)),
            None => Err(
                NotificationParseError::InternalParse(
                    String::from_str("Key '").concat(key.as_str()).concat(
                        "' must have a YAML Array format",
                    ),
                ),
            ),
        }
    }

    /// Reads a mail notifier from its section of the configuration, with
    /// the credentials that its credentials file gave.
    pub fn try_from(data: &Node, credentials: Option<MailCredentials>) -> (parsed: Result<
        MailNotifier,
        NotificationParseError,
    >)
        ensures
            match parsed {
                Ok(notifier) => mail_notifier_of(*data, credentials_text(credentials)) == Ok::<
                    MailNotifierView,
                    MailRefusal,
                >(notifier@),
                Err(e) => mail_notifier_of(*data, credentials_text(credentials)) matches Err(
                    refusal,
                ) && refusal.describes(e),
            },
    {
        let settings = match Self::settings(data) {
            Ok(settings) => settings,
            Err(e) => {
                return Err(e);
            },
        };
        let mut mail_builder = match MailNotifierBuilder::new(
            settings.smtp_domain.as_str(),
            settings.from.as_str(),
            settings.to.as_str(),
            credentials,
        ) {
            Ok(builder) => builder,
            Err(e) => {
                return Err(e);
            },
        };
        match Self::recipients(data, ConfigKey::MailCc) {
            Err(e) => {
                return Err(e);
            },
            Ok(None) => {},
            Ok(Some(cc)) => {
                let ghost list = texts(cc@);
                match mail_builder.cc(cc) {
                    Ok(builder) => {
                        proof {
                            lemma_none_refused(list, "cc"@);
                        }
                        mail_builder = builder;
                    },
                    Err(e) => {
                        proof {
                            let i = choose|i: int| first_refused(list, i);
                            lemma_refused_at(list, "cc"@, i);
                        }
                        return Err(e);
                    },
                }
            },
        }
        match Self::recipients(data, ConfigKey::MailBcc) {
            Err(e) => {
                return Err(e);
            },
            Ok(None) => {},
            Ok(Some(bcc)) => {
                let ghost list = texts(bcc@);
                match mail_builder.bcc(bcc) {
                    Ok(builder) => {
                        proof {
                            lemma_none_refused(list, "bcc"@);
                        }
                        mail_builder = builder;
                    },
                    Err(e) => {
                        proof {
                            let i = choose|i: int| first_refused(list, i);
                            lemma_refused_at(list, "bcc"@, i);
                        }
                        return Err(e);
                    },
                }
            },
        }
        let notifier = mail_builder.build();
        assert(notifier@.cc =~= listed(recipients_of(*data, ConfigKey::MailCc)->Ok_0));
        assert(notifier@.bcc =~= listed(recipients_of(*data, ConfigKey::MailBcc)->Ok_0));
        Ok(notifier)
    }

    /// The mail server.
    pub fn smtp_domain(&self) -> (domain: &str)
        ensures
            domain@ == self@.smtp_domain,
    {
        self.smtp_domain.as_str()
    }

    /// The name and password for the mail server, where there are any.
    pub fn credentials(&self) -> (credentials: &Option<MailCredentials>)
        ensures
            credentials_text(*credentials) == self@.credentials,
    {
        &self.credentials
    }

    /// The sender.
    pub fn from(&self) -> (from: &str)
        ensures
            from@ == self@.from,
    {
        self.from.as_str()
    }

    /// The receiver.
    pub fn to(&self) -> (to: &str)
        ensures
            to@ == self@.to,
    {
        self.to.as_str()
    }

    /// The receivers of a copy.
    pub fn cc(&self) -> (cc: &Vec<String>)
        ensures
            texts(cc@) == self@.cc,
    {
        &self.cc
    }

    /// The receivers of a blind copy.
    pub fn bcc(&self) -> (bcc: &Vec<String>)
        ensures
            texts(bcc@) == self@.bcc,
    {
        &self.bcc
    }

    /// The subject of every alert mail.
    pub fn subject() -> (subject: &'static str)
        ensures
            subject@ == "Toktok Service Alert!"@,
    {
        "Toktok Service Alert!"
    }

    /// The body of the alert mail for `exec_result`, as HTML.
    pub fn body(exec_result: &CheckerResult) -> (body: String)
        ensures
            body@ == body_text(exec_result@),
    {
        String::from_str("\n<!DOCTYPE html>\n<html>\n  <head>\n    <style>\n      p ").concat(
            "{margin: .5em 0 .5em 0; font-size: 16px;}",
        ).concat(
            "\n    </style>\n  </head>\n  <body>\n    <h1>Toktok!</h1>\n    <p>Hello, a service reported with an unexpected status through the last verification</p>\n    <p>Service: ",
        ).concat(exec_result.service_name.as_str()).concat(
            "</p>\n    <p>Reported status: ",
        ).concat(exec_result.status.name()).concat("</p>\n    <p>Message: ").concat(
            exec_result.message.as_str(),
        ).concat("</p>\n  </body>\n</html>\n")
    }
}

} // verus!
