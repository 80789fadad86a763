//! The reachability check: can a TCP connection be opened.

use vstd::prelude::*;
use vstd::string::*;
use crate::checker::error::CheckerParseError;
use crate::checker::structs::{CheckerResult, CheckerResultView, CheckerStatus, CheckerType};
use crate::checker::{spec_timeout, Checker, CheckerRefusal};
use crate::parser::keys::{ConfigKey, ConfigKeyInvalidFormat};
use crate::parser::yaml::Node;
use crate::text::contains_char;

verus! {

/// A server check as plain values.
pub struct ServerCheckerView {
    pub host: Seq<char>,
    pub timeout: Option<u64>,
}

/// A check that passes when a TCP connection to `host` can be opened.
/// The host is a socket address in writing: an address, a colon and a
/// port.
#[derive(Debug)]
pub struct ServerChecker {
    host: String,
    timeout: Option<u64>,
}

impl View for ServerChecker {
    type V = ServerCheckerView;

    closed spec fn view(&self) -> ServerCheckerView {
        ServerCheckerView { host: self.host@, timeout: self.timeout }
    }
}

/// What the machine makes of a socket in writing. The caller asks the
/// machine all three questions and hands over the answers as they come;
/// which of them counts is decided here.
#[derive(Debug)]
pub struct SocketLookup {
    /// Whether the part before the first colon is an IP address in writing.
    pub host_is_ip: bool,
    /// The socket read as a socket address, written back as an address, or
    /// the words of the failure to read it.
    pub parsed: Result<String, String>,
    /// The addresses that a lookup of the socket found, in the order in
    /// which it found them, or the words of its failure.
    pub looked_up: Result<Vec<String>, String>,
}

/// The lookup that was handed in, if one was.
pub open spec fn given(lookup: Option<&SocketLookup>) -> Option<SocketLookup> {
    match lookup {
        Some(l) => Some(*l),
        None => None,
    }
}

/// The address a check connects to, as the lookup `lookup` of its socket
/// gives it, or the words that refuse the socket. Where the host is an IP
/// address in writing, the socket has to read as a socket address. Where
/// it is a name, the lookup has to succeed and to find an address; the
/// first one found is taken. A socket that nothing was looked up for has no
/// address.
pub open spec fn socket_verdict(lookup: Option<SocketLookup>) -> Result<Seq<char>, Seq<char>> {
    match lookup {
        None => Err("No IP resolution found to the socket"@),
        Some(l) => if l.host_is_ip {
            match l.parsed {
                Ok(address) => Ok(address@),
                Err(e) => Err("Invalid socket: "@ + e@),
            }
        } else {
            match l.looked_up {
                Ok(found) => if found@.len() > 0 {
                    Ok(found@[0]@)
                } else {
                    Err("No IP resolution found to the socket"@)
                },
                Err(e) => Err(
                    "Unable to convert the socket to a Address due to the following error: "@
                        + e@,
                ),
            }
        },
    }
}

/// The socket that the configuration `data` of a server check names: a
/// text that is not empty and holds a colon.
pub open spec fn socket_of(data: Node) -> Result<Seq<char>, CheckerParseError> {
    match data.spec_get(ConfigKey::Socket.spec_name()) {
        Some(Node::String(socket)) if socket@.len() > 0 => if socket@.contains(':') {
            Ok(socket@)
        } else {
            Err(
                CheckerParseError::InvalidFormat(
                    ConfigKey::Socket,
                    ConfigKeyInvalidFormat(ConfigKey::Socket),
                ),
            )
        },
        _ => Err(CheckerParseError::KeyNotFoundAt(ConfigKey::Socket, CheckerType::Server)),
    }
}

/// The first colon of `text` is at `i`.
pub open spec fn first_colon(text: Seq<char>, i: int) -> bool {
    &&& 0 <= i < text.len()
    &&& text[i] == ':'
    &&& forall|j: int| 0 <= j < i ==> text[j] != ':'
}

/// The host of a socket in writing: what stands before its first colon,
/// or all of it where it has none.
pub open spec fn host_text(socket: Seq<char>) -> Seq<char> {
    if exists|i: int| first_colon(socket, i) {
        socket.subrange(0, choose|i: int| first_colon(socket, i))
    } else {
        socket
    }
}

/// What the configuration `data` of a server check is read as, with the
/// lookup `lookup` of its socket. The socket has to be a text that is not
/// empty and holds a colon, and the lookup has to give it an address; the
/// timeout is optional. The check connects to the address, not to the
/// socket as it was written.
pub open spec fn server_checker_of(data: Node, lookup: Option<SocketLookup>) -> Result<
    ServerCheckerView,
    CheckerRefusal,
> {
    match socket_of(data) {
        Err(e) => Err(CheckerRefusal::Known(e)),
        Ok(_) => match socket_verdict(lookup) {
            Ok(host) => Ok(ServerCheckerView { host, timeout: spec_timeout(data) }),
            Err(words) => Err(CheckerRefusal::Words(words)),
        },
    }
}

/// What a server check makes of its attempt to connect, for the service
/// `service`: a success where the connection was opened, an error with the
/// words of the failure where it was not.
pub open spec fn server_verdict(service: Seq<char>, connected: Result<(), String>)
    -> CheckerResultView {
    match connected {
        Ok(_) => CheckerResultView {
            service_name: service,
            status: CheckerStatus::Success,
            message: "Server connected successfully via TCP/IP"@,
        },
        Err(err) => CheckerResultView {
            service_name: service,
            status: CheckerStatus::Error,
            message: "Server unavailable: "@ + err@,
        },
    }
}

impl ServerChecker {
    /// A check of `host` that gives the connection `timeout` seconds, or
    /// as long as it takes where there is none.
    pub fn new(host: String, timeout: Option<u64>) -> (checker: Self)
        ensures
            checker@ == (ServerCheckerView { host: host@, timeout }),
    {
        Self { host, timeout }
    }

    /// The socket address the check connects to.
    pub fn host(&self) -> (host: &str)
        ensures
            host@ == self@.host,
    {
        self.host.as_str()
    }

    /// The seconds the connection is given, where it is given a limit.
    pub fn timeout(&self) -> (secs: Option<u64>)
        ensures
            secs == self@.timeout,
    {
        self.timeout
    }

    /// Judges the attempt of this check to connect, made for the service
    /// `service`: `Ok` where the connection was opened, or `Err` with the
    /// words of the failure.
    pub fn check(&self, service: &str, connected: Result<(), String>) -> (result: CheckerResult)
        ensures
            result@ == server_verdict(service@, connected),
    {
        match connected {
            Ok(_) => CheckerResult::new(
                String::from_str(service),
                CheckerStatus::Success,
                String::from_str("Server connected successfully via TCP/IP"),
            ),
            Err(err) => CheckerResult::new(
                String::from_str(service),
                CheckerStatus::Error,
                String::from_str("Server unavailable: ").concat(err.as_str()),
            ),
        }
    }

    /// The socket that the configuration `data` of a server check names.
    pub fn socket(data: &Node) -> (socket: Result<&str, CheckerParseError>)
        ensures
            match socket {
                Ok(text) => socket_of(*data) == Ok::<Seq<char>, CheckerParseError>(text@),
                Err(e) => socket_of(*data) == Err::<Seq<char>, CheckerParseError>(e),
            },
    {
        let socket: &str = match data.get(ConfigKey::Socket.as_str()) {
            Some(Node::String(text)) => {
                if text.as_str().unicode_len() == 0 {
                    return Err(
                        CheckerParseError::KeyNotFoundAt(ConfigKey::Socket, CheckerType::Server),
                    );
                }
                text.as_str()
            },
            _ => {
                return Err(
                    CheckerParseError::KeyNotFoundAt(ConfigKey::Socket, CheckerType::Server),
                );
            },
        };
        if !contains_char(socket, ':') {
            return Err(
                CheckerParseError::InvalidFormat(
                    ConfigKey::Socket,
                    ConfigKeyInvalidFormat::new(ConfigKey::Socket),
                ),
            );
        }
        Ok(socket)
    }

    /// The host of a socket in writing: what stands before its first
    /// colon, or all of it where it has none.
    pub fn host_part(socket: &str) -> (host: String)
        ensures
            host@ == host_text(socket@),
    {
        let n = socket.unicode_len();
        let mut i: usize = 0;
        while i < n
            invariant
                n == socket@.len(),
                i <= n,
                forall|j: int| 0 <= j < i ==> socket@[j] != ':',
            decreases n - i,
        {
            if socket.get_char(i) == ':' {
                proof {
                    assert(first_colon(socket@, i as int));
                    let c = choose|c: int| first_colon(socket@, c);
                    assert(c == i);
                }
                return String::from_str(socket.substring_char(0, i));
            }
            i = i + 1;
        }
        String::from_str(socket)
    }

    /// The address a check connects to, as the lookup of its socket gives
    /// it, or the refusal of the socket.
    pub fn resolved(lookup: Option<&SocketLookup>) -> (host: Result<String, CheckerParseError>)
        ensures
            match host {
                Ok(address) => socket_verdict(given(lookup)) == Ok::<Seq<char>, Seq<char>>(
                    address@,
                ),
                Err(e) => e matches CheckerParseError::InternalParse(words) && socket_verdict(
                    given(lookup),
                ) == Err::<Seq<char>, Seq<char>>(words@),
            },
    {
        let lookup = match lookup {
            Some(lookup) => lookup,
            None => {
                return Err(
                    CheckerParseError::InternalParse(
                        String::from_str("No IP resolution found to the socket"),
                    ),
                );
            },
        };
        if lookup.host_is_ip {
            match &lookup.parsed {
                Ok(address) => Ok(address.clone()),
                Err(e) => Err(
                    CheckerParseError::InternalParse(
                        String::from_str("Invalid socket: ").concat(e.as_str()),
                    ),
                ),
            }
        } else {
            match &lookup.looked_up {
                Ok(found) => {
                    if found.len() > 0 {
                        Ok(found[0].clone())
                    } else {
                        Err(
                            CheckerParseError::InternalParse(
                                String::from_str("No IP resolution found to the socket"),
                            ),
                        )
                    }
                },
                Err(e) => Err(
                    CheckerParseError::InternalParse(
                        String::from_str(
                            "Unable to convert the socket to a Address due to the following error: ",
                        ).concat(e.as_str()),
                    ),
                ),
            }
        }
    }

    /// Reads a server check from its configuration, with the lookup of its
    /// socket. The socket is looked at first, then the lookup.
    pub fn try_from(data: &Node, lookup: Option<&SocketLookup>) -> (parsed: Result<
        ServerChecker,
        CheckerParseError,
    >)
        ensures
            match parsed {
                Ok(checker) => server_checker_of(*data, given(lookup)) == Ok::<
                    ServerCheckerView,
                    CheckerRefusal,
                >(checker@),
                Err(e) => server_checker_of(*data, given(lookup)) matches Err(refusal)
                    && refusal.describes(e),
            },
    {
        match Self::socket(data) {
            Err(e) => {
                return Err(e);
            },
            Ok(_) => {},
        }
        let host = match Self::resolved(lookup) {
            Ok(host) => host,
            Err(e) => {
                return Err(e);
            },
        };
        let timeout = match Checker::timeout(data) {
            Ok(timeout) => timeout,
            Err(_) => None,
        };
        Ok(ServerChecker::new(host, timeout))
    }
}

} // verus!
