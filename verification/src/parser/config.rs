//! The validated configuration and the steps that build it.

use vstd::prelude::*;
use vstd::string::*;
use crate::checker::error::CheckerParseError;
use crate::checker::server::{given, socket_of, ServerChecker, SocketLookup};
use crate::checker::{checker_of, Checker, CheckerRefusal, CheckerView};
use crate::notification::email::{
    credentials_text, mail_notifier_of, MailCredentials, MailNotifier, MailNotifierView,
    MailRefusal,
};
use crate::notification::error::NotificationParseError;
use crate::parser::error::{ConfigFileError, ConfigParseError};
use crate::parser::keys::ConfigKey;
use crate::parser::yaml::{documents_of, scan, Node};
use crate::task::Task;
use crate::task_info::TaskInfo;
use crate::task_logger::{folder_text, TaskLogger, TaskLoggerView};
use crate::text::{str_eq, texts};
use crate::time::{clock_now, clock_today, Date, Interval, Timestamp, NANOS_PER_SEC};

verus! {

/// What the scheduler is started with: the tasks to run and, where one is
/// configured, the mail notifier.
pub struct Configuration {
    pub tasks: Vec<Task>,
    pub mailer: Option<MailNotifier>,
}

/// The words that refuse a configuration without a mapping of services,
/// or with a service whose name is no text.
pub open spec fn no_services() -> Seq<char> {
    "Invalid services format or none was provided"@
}

/// The interval that the attributes of a service ask for, in nanoseconds:
/// the value of `interval`, in seconds, where it is an integer above zero.
pub open spec fn interval_of(attrs: Node) -> Result<int, CheckerParseError> {
    match attrs.spec_get(ConfigKey::Interval.spec_name()) {
        Some(Node::Integer(secs)) if secs > 0 => Ok(secs * NANOS_PER_SEC),
        _ => Err(CheckerParseError::KeyNotFound(ConfigKey::Interval)),
    }
}

/// The lookup at `i` is the first of `lookups` that was made for the
/// socket `socket`.
pub open spec fn lookup_at(lookups: Seq<(String, SocketLookup)>, socket: Seq<char>, i: int) -> bool {
    &&& 0 <= i < lookups.len()
    &&& lookups[i].0@ == socket
    &&& forall|j: int| 0 <= j < i ==> (#[trigger] lookups[j]).0@ != socket
}

/// The lookup that was made for the socket `socket`: the first of
/// `lookups` under that socket, if there is one.
pub open spec fn lookup_of(lookups: Seq<(String, SocketLookup)>, socket: Seq<char>) -> Option<
    SocketLookup,
> {
    if exists|i: int| lookup_at(lookups, socket, i) {
        Some(lookups[choose|i: int| lookup_at(lookups, socket, i)].1)
    } else {
        None
    }
}

/// The lookup that goes with the configuration `config` of a service: the
/// one made for the socket it names, if it names one and one was made.
pub open spec fn lookup_for(config: Node, lookups: Seq<(String, SocketLookup)>) -> Option<
    SocketLookup,
> {
    match socket_of(config) {
        Ok(socket) => lookup_of(lookups, socket),
        Err(_) => None,
    }
}

/// The check that the attributes of a service ask for: what its
/// `configuration` is read as, with the lookup that was made for its
/// socket.
pub open spec fn configured_checker(attrs: Node, lookups: Seq<(String, SocketLookup)>) -> Result<
    CheckerView,
    CheckerRefusal,
> {
    match attrs.spec_get(ConfigKey::Configuration.spec_name()) {
        None => Err(CheckerRefusal::Known(CheckerParseError::KeyNotFound(ConfigKey::Configuration))),
        Some(Node::BadValue) => Err(
            CheckerRefusal::Known(CheckerParseError::KeyNotFound(ConfigKey::Configuration)),
        ),
        Some(config) => checker_of(config, lookup_for(config, lookups)),
    }
}

/// The socket that an entry of the `services` mapping wants looked up: the
/// one its `configuration` names, if it names one.
pub open spec fn wanted_socket(entry: (Node, Node)) -> Option<Seq<char>> {
    match entry.1.spec_get(ConfigKey::Configuration.spec_name()) {
        Some(config) => match socket_of(config) {
            Ok(socket) => Some(socket),
            Err(_) => None,
        },
        None => None,
    }
}

/// The sockets that the entries of the `services` mapping want looked up,
/// in the order of the entries.
pub open spec fn wanted_sockets(entries: Seq<(Node, Node)>) -> Seq<Seq<char>>
    decreases entries.len(),
{
    if entries.len() == 0 {
        Seq::empty()
    } else {
        let before = wanted_sockets(entries.drop_last());
        match wanted_socket(entries.last()) {
            Some(socket) => before.push(socket),
            None => before,
        }
    }
}

/// A service as its entry in the configuration describes it.
pub struct ServiceView {
    pub name: Seq<char>,
    pub interval: int,
    pub checker: CheckerView,
}

/// What an entry of the `services` mapping is read as: its key is the name
/// of the service; the interval is looked at before the check.
pub open spec fn service_of(entry: (Node, Node), lookups: Seq<(String, SocketLookup)>) -> Result<
    ServiceView,
    CheckerRefusal,
> {
    match entry.0 {
        Node::String(name) => match interval_of(entry.1) {
            Ok(interval) => match configured_checker(entry.1, lookups) {
                Ok(checker) => Ok(ServiceView { name: name@, interval, checker }),
                Err(refusal) => Err(refusal),
            },
            Err(e) => Err(CheckerRefusal::Known(e)),
        },
        _ => Err(CheckerRefusal::Words(no_services())),
    }
}

/// `task` is the task of the service `service`, new at `now` on the day
/// `today`, with its log below `temp_dir`.
pub open spec fn task_of(
    task: Task,
    service: ServiceView,
    now: Timestamp,
    today: Date,
    temp_dir: Seq<char>,
) -> bool {
    &&& task.info().name@ == service.name
    &&& task.info().interval@ == service.interval
    &&& task.info().last_execution_at == now
    &&& task.info().next_execution_at == now
    &&& task.spec_checker()@ == service.checker
    &&& task.spec_logger()@ == (TaskLoggerView {
        task_name: service.name,
        file_dir: folder_text(temp_dir, service.name),
        file_date: today,
    })
}

/// The entries of the `services` mapping of the first document, where
/// there is one.
pub open spec fn service_entries(documents: Seq<Node>) -> Option<Seq<(Node, Node)>> {
    if documents.len() == 0 {
        None
    } else {
        match documents[0].spec_get("services"@) {
            Some(Node::Hash(entries)) => Some(entries@),
            _ => None,
        }
    }
}

/// The `mailer` section of the first document, where it is a mapping.
pub open spec fn mailer_section_of(documents: Seq<Node>) -> Option<Node> {
    if documents.len() == 0 {
        None
    } else {
        match documents[0].spec_get("notification"@) {
            Some(notification) => match notification.spec_get("mailer"@) {
                Some(section) => if section is Hash {
                    Some(section)
                } else {
                    None
                },
                None => None,
            },
            None => None,
        }
    }
}

/// `tasks` are the tasks of the service entries `entries`, one for each
/// and in their order, read with the lookups `lookups`.
pub open spec fn tasks_of(
    tasks: Seq<Task>,
    entries: Seq<(Node, Node)>,
    lookups: Seq<(String, SocketLookup)>,
    now: Timestamp,
    today: Date,
    temp_dir: Seq<char>,
) -> bool {
    &&& tasks.len() == entries.len()
    &&& forall|i: int|
        0 <= i < entries.len() ==> {
            &&& service_of(#[trigger] entries[i], lookups) is Ok
            &&& task_of(tasks[i], service_of(entries[i], lookups)->Ok_0, now, today, temp_dir)
        }
}

/// The entry at `i` is the first of `entries` that is refused, read with
/// the lookups `lookups`, and `error` says why.
pub open spec fn first_refusal(
    entries: Seq<(Node, Node)>,
    lookups: Seq<(String, SocketLookup)>,
    i: int,
    error: CheckerParseError,
) -> bool {
    &&& 0 <= i < entries.len()
    &&& service_of(entries[i], lookups) matches Err(refusal) && refusal.describes(error)
    &&& forall|j: int| 0 <= j < i ==> service_of(#[trigger] entries[j], lookups) is Ok
}

/// Reads a configuration step by step: first the services, then the
/// mailer, then the whole.
pub struct ConfigurationBuilder {
    config: Vec<Node>,
    temp_dir: String,
    tasks: Vec<Task>,
    mailer: Option<MailNotifier>,
}

impl ConfigurationBuilder {
    /// The documents of the configuration file.
    pub closed spec fn documents(self) -> Seq<Node> {
        self.config@
    }

    /// The directory for temporary files, below which the logs are kept.
    pub closed spec fn temp_dir(self) -> Seq<char> {
        self.temp_dir@
    }

    /// The tasks read so far.
    pub closed spec fn spec_tasks(self) -> Seq<Task> {
        self.tasks@
    }

    /// The mail notifier read so far.
    pub closed spec fn spec_mailer(self) -> Option<MailNotifier> {
        self.mailer
    }

    /// A builder for the configuration written in `content`, with the logs
    /// below `temp_dir`: it holds the documents the scanner finds in the
    /// text. Fails, with the scanner's words, where the scanner refuses the
    /// text.
    pub fn try_new(content: &str, temp_dir: String) -> (made: Result<Self, ConfigFileError>)
        ensures
            match made {
                Ok(builder) => {
                    &&& documents_of(content@) == Ok::<Seq<Node>, Seq<char>>(builder.documents())
                    &&& builder.temp_dir() == temp_dir@
                    &&& builder.spec_tasks().len() == 0
                    &&& builder.spec_mailer() is None
                },
                Err(e) => e matches ConfigFileError::UnableToScan(words) && documents_of(content@)
                    == Err::<Seq<Node>, Seq<char>>(words@),
            },
    {
        match Self::load_config(content) {
            Ok(config) => Ok(Self::from_documents(config, temp_dir)),
            Err(e) => Err(e),
        }
    }

    /// A builder for the configuration that the documents `config` hold,
    /// with the logs below `temp_dir`.
    pub fn from_documents(config: Vec<Node>, temp_dir: String) -> (builder: Self)
        ensures
            builder.documents() == config@,
            builder.temp_dir() == temp_dir@,
            builder.spec_tasks().len() == 0,
            builder.spec_mailer() is None,
    {
        Self { config, temp_dir, tasks: Vec::new(), mailer: None }
    }

    /// A node for each YAML document in `content`, or the scanner's error.
    pub fn load_config(content: &str) -> (loaded: Result<Vec<Node>, ConfigFileError>)
        ensures
            match loaded {
                Ok(config) => documents_of(content@) == Ok::<Seq<Node>, Seq<char>>(config@),
                Err(e) => e matches ConfigFileError::UnableToScan(words) && documents_of(content@)
                    == Err::<Seq<Node>, Seq<char>>(words@),
            },
    {
        match scan(content) {
            Ok(config) => Ok(config),
            Err(words) => Err(ConfigFileError::UnableToScan(words)),
        }
    }

    /// The sockets that the services want looked up, in the order of the
    /// services: every socket that the configuration of a service names.
    pub fn sockets(&self) -> (sockets: Vec<String>)
        ensures
            texts(sockets@) == (match service_entries(self.documents()) {
                Some(entries) => wanted_sockets(entries),
                None => Seq::empty(),
            }),
    {
        let mut sockets: Vec<String> = Vec::new();
        assert(texts(sockets@) =~= Seq::empty());
        let found = if self.config.len() == 0 {
            None
        } else {
            match self.config[0].get("services") {
                Some(Node::Hash(entries)) => Some(entries),
                _ => None,
            }
        };
        let entries = match found {
            Some(entries) => entries,
            None => {
                return sockets;
            },
        };
        let mut i: usize = 0;
        assert(entries@.take(0) =~= Seq::empty());
        while i < entries.len()
            invariant
                i <= entries@.len(),
                texts(sockets@) == wanted_sockets(entries@.take(i as int)),
            decreases entries@.len() - i,
        {
            proof {
                let upto = entries@.take(i + 1);
                assert(upto.drop_last() =~= entries@.take(i as int));
                assert(upto.last() == entries@[i as int]);
            }
            let ghost before = sockets@;
            match entries[i].1.get(ConfigKey::Configuration.as_str()) {
                Some(config) => match ServerChecker::socket(config) {
                    Ok(socket) => {
                        sockets.push(String::from_str(socket));
                        assert(texts(sockets@) =~= texts(before).push(socket@));
                    },
                    Err(_) => {},
                },
                None => {},
            }
            i = i + 1;
        }
        assert(entries@.take(entries@.len() as int) =~= entries@);
        sockets
    }

    /// Reads the services, each into a task that is new at the instant and
    /// on the day the system clock shows, with the lookups `lookups` that
    /// were made for their sockets. The first service that is refused
    /// decides the error; a configuration without a mapping of services is
    /// refused too.
    pub fn services(self, lookups: &Vec<(String, SocketLookup)>) -> (read: Result<
        Self,
        CheckerParseError,
    >)
        ensures
            match read {
                Ok(builder) => {
                    &&& service_entries(self.documents()) matches Some(entries)
                    &&& exists|now: Timestamp, today: Date| #[trigger]
                        tasks_of(
                            builder.spec_tasks(),
                            entries,
                            lookups@,
                            now,
                            today,
                            self.temp_dir(),
                        )
                    &&& builder.documents() == self.documents()
                    &&& builder.temp_dir() == self.temp_dir()
                    &&& builder.spec_mailer() == self.spec_mailer()
                },
                Err(e) => match service_entries(self.documents()) {
                    Some(entries) => exists|i: int| #[trigger] first_refusal(entries, lookups@, i, e),
                    None => e matches CheckerParseError::InternalParse(words) && words@
                        == no_services(),
                },
            },
    {
        let now = clock_now();
        let today = clock_today();
        let read = self.services_at(now, today, lookups);
        proof {
            if read is Ok {
                let entries = service_entries(self.documents())->0;
                assert(tasks_of(
                    read->Ok_0.spec_tasks(),
                    entries,
                    lookups@,
                    now,
                    today,
                    self.temp_dir(),
                ));
            }
        }
        read
    }

    /// Reads the services, each into a task that is new at `now` on the
    /// day `today`, with the lookups `lookups` that were made for their
    /// sockets. The first service that is refused decides the error; a
    /// configuration without a mapping of services is refused too.
    pub fn services_at(
        self,
        now: Timestamp,
        today: Date,
        lookups: &Vec<(String, SocketLookup)>,
    ) -> (read: Result<Self, CheckerParseError>)
        ensures
            match read {
                Ok(builder) => {
                    &&& service_entries(self.documents()) matches Some(entries)
                    &&& tasks_of(
                        builder.spec_tasks(),
                        entries,
                        lookups@,
                        now,
                        today,
                        self.temp_dir(),
                    )
                    &&& builder.documents() == self.documents()
                    &&& builder.temp_dir() == self.temp_dir()
                    &&& builder.spec_mailer() == self.spec_mailer()
                },
                Err(e) => match service_entries(self.documents()) {
                    Some(entries) => exists|i: int| #[trigger] first_refusal(entries, lookups@, i, e),
                    None => e matches CheckerParseError::InternalParse(words) && words@
                        == no_services(),
                },
            },
    {
        let mut builder = self;
        let found = if builder.config.len() == 0 {
            None
        } else {
            match builder.config[0].get("services") {
                Some(Node::Hash(entries)) => Some(entries),
                _ => None,
            }
        };
        let entries = match found {
            Some(entries) => entries,
            None => {
                return Err(
                    CheckerParseError::InternalParse(
                        String::from_str("Invalid services format or none was provided"),
                    ),
                );
            },
        };
        let mut tasks: Vec<Task> = Vec::new();
        let mut i: usize = 0;
        while i < entries.len()
            invariant
                i <= entries@.len(),
                tasks@.len() == i,
                service_entries(self.documents()) == Some(entries@),
                forall|j: int|
                    0 <= j < i ==> {
                        &&& service_of(#[trigger] entries@[j], lookups@) is Ok
                        &&& task_of(
                            tasks@[j],
                            service_of(entries@[j], lookups@)->Ok_0,
                            now,
                            today,
                            builder.temp_dir@,
                        )
                    },
            decreases entries@.len() - i,
        {
            match Self::service(&entries[i], now, today, builder.temp_dir.as_str(), lookups) {
                Ok(task) => {
                    tasks.push(task);
                },
                Err(e) => {
                    proof {
                        let listed = service_entries(self.documents())->0;
                        assert(listed == entries@);
                        assert(first_refusal(listed, lookups@, i as int, e));
                    }
                    return Err(e);
                },
            }
            i = i + 1;
        }
        builder.tasks = tasks;
        Ok(builder)
    }

    /// The task of one entry of the `services` mapping, new at `now` on the
    /// day `today`, with its log below `temp_dir`.
    fn service(
        entry: &(Node, Node),
        now: Timestamp,
        today: Date,
        temp_dir: &str,
        lookups: &Vec<(String, SocketLookup)>,
    ) -> (read: Result<Task, CheckerParseError>)
        ensures
            match read {
                Ok(task) => service_of(*entry, lookups@) matches Ok(service) && task_of(
                    task,
                    service,
                    now,
                    today,
                    temp_dir@,
                ),
                Err(e) => service_of(*entry, lookups@) matches Err(refusal) && refusal.describes(
                    e,
                ),
            },
    {
        let service_name = match &entry.0 {
            Node::String(name) => name.clone(),
            _ => {
                return Err(
                    CheckerParseError::InternalParse(
                        String::from_str("Invalid services format or none was provided"),
                    ),
                );
            },
        };
        let interval = match Self::interval(&entry.1) {
            Ok(interval) => interval,
            Err(e) => {
                return Err(e);
            },
        };
        let checker = match Self::get_checker(&entry.1, lookups) {
            Ok(checker) => checker,
            Err(e) => {
                return Err(e);
            },
        };
        let logger = TaskLogger::new(service_name.as_str(), temp_dir, today);
        let info = TaskInfo::starting_at(service_name, interval, now);
        Ok(Task::new(info, checker, logger))
    }

    /// The lookup that goes with the configuration `config` of a service.
    fn find_lookup<'a>(config: &Node, lookups: &'a Vec<(String, SocketLookup)>) -> (found: Option<
        &'a SocketLookup,
    >)
        ensures
            given(found) == lookup_for(*config, lookups@),
    {
        let socket = match ServerChecker::socket(config) {
            Ok(socket) => socket,
            Err(_) => {
                return None;
            },
        };
        let mut i: usize = 0;
        while i < lookups.len()
            invariant
                i <= lookups@.len(),
                socket_of(*config) == Ok::<Seq<char>, CheckerParseError>(socket@),
                forall|j: int| 0 <= j < i ==> (#[trigger] lookups@[j]).0@ != socket@,
            decreases lookups@.len() - i,
        {
            if str_eq(lookups[i].0.as_str(), socket) {
                proof {
                    assert(lookup_at(lookups@, socket@, i as int));
                    let c = choose|c: int| lookup_at(lookups@, socket@, c);
                    assert(c == i);
                }
                return Some(&lookups[i].1);
            }
            i = i + 1;
        }
        None
    }

    /// The check that the attributes of a service ask for.
    fn get_checker(service_attrs: &Node, lookups: &Vec<(String, SocketLookup)>) -> (parsed: Result<
        Checker,
        CheckerParseError,
    >)
        ensures
            match parsed {
                Ok(checker) => configured_checker(*service_attrs, lookups@) == Ok::<
                    CheckerView,
                    CheckerRefusal,
                >(checker@),
                Err(e) => configured_checker(*service_attrs, lookups@) matches Err(refusal)
                    && refusal.describes(e),
            },
    {
        match service_attrs.get(ConfigKey::Configuration.as_str()) {
            None => Err(CheckerParseError::KeyNotFound(ConfigKey::Configuration)),
            Some(Node::BadValue) => Err(CheckerParseError::KeyNotFound(ConfigKey::Configuration)),
            Some(service_config) => Checker::try_from(
                service_config,
                Self::find_lookup(service_config, lookups),
            ),
        }
    }

    /// The interval that the attributes of a service ask for.
    fn interval(service_attrs: &Node) -> (parsed: Result<Interval, CheckerParseError>)
        ensures
            match parsed {
                Ok(interval) => interval_of(*service_attrs) == Ok::<int, CheckerParseError>(
                    interval@,
                ),
                Err(e) => interval_of(*service_attrs) == Err::<int, CheckerParseError>(e),
            },
    {
        match service_attrs.get(ConfigKey::Interval.as_str()) {
            Some(Node::Integer(inter)) => match Interval::from_secs(*inter) {
                Some(interval) => Ok(interval),
                None => Err(CheckerParseError::KeyNotFound(ConfigKey::Interval)),
            },
            _ => Err(CheckerParseError::KeyNotFound(ConfigKey::Interval)),
        }
    }

    /// The tasks read so far.
    pub fn tasks(&self) -> (tasks: &Vec<Task>)
        ensures
            tasks@ == self.spec_tasks(),
    {
        &self.tasks
    }

    /// The `mailer` section of the configuration, where it is a mapping.
    pub fn mailer_section(&self) -> (section: Option<&Node>)
        ensures
            match section {
                Some(s) => mailer_section_of(self.documents()) == Some(*s),
                None => mailer_section_of(self.documents()) is None,
            },
    {
        if self.config.len() == 0 {
            return None;
        }
        match self.config[0].get("notification") {
            Some(notification) => match notification.get("mailer") {
                Some(section) => if section.is_hash() {
                    Some(section)
                } else {
                    None
                },
                None => None,
            },
            None => None,
        }
    }

    /// Reads the mail notifier, with the credentials that its credentials
    /// file gave. A configuration without a `mailer` mapping has no mail
    /// notifier, and that is no error.
    pub fn mailer(self, credentials: Option<MailCredentials>) -> (read: Result<
        Self,
        NotificationParseError,
    >)
        ensures
            match read {
                Ok(builder) => {
                    &&& builder.documents() == self.documents()
                    &&& builder.temp_dir() == self.temp_dir()
                    &&& builder.spec_tasks() == self.spec_tasks()
                    &&& match mailer_section_of(self.documents()) {
                        Some(section) => builder.spec_mailer() matches Some(mailer)
                            && mail_notifier_of(section, credentials_text(credentials)) == Ok::<
                            MailNotifierView,
                            MailRefusal,
                        >(mailer@),
                        None => builder.spec_mailer() == self.spec_mailer(),
                    }
                },
                Err(e) => mailer_section_of(self.documents()) matches Some(section)
                    && mail_notifier_of(section, credentials_text(credentials)) matches Err(
                    refusal,
                ) && refusal.describes(e),
            },
    {
        let mut builder = self;
        let parsed = match builder.mailer_section() {
            Some(section) => MailNotifier::try_from(section, credentials),
            None => {
                return Ok(builder);
            },
        };
        match parsed {
            Ok(mailer) => {
                builder.mailer = Some(mailer);
                Ok(builder)
            },
            Err(e) => Err(e),
        }
    }

    /// The configuration that was read, if it holds a task to run.
    pub fn build(self) -> (built: Result<Configuration, ConfigParseError>)
        ensures
            match built {
                Ok(configuration) => {
                    &&& self.spec_tasks().len() > 0
                    &&& configuration.tasks@ == self.spec_tasks()
                    &&& configuration.mailer == self.spec_mailer()
                },
                Err(e) => self.spec_tasks().len() == 0 && e == ConfigParseError::NoServiceProvided,
            },
    {
        if self.tasks.len() == 0 {
            return Err(ConfigParseError::NoServiceProvided);
        }
        Ok(Configuration { tasks: self.tasks, mailer: self.mailer })
    }
}

impl Configuration {
    /// A builder for the configuration written in `content`, with the logs
    /// below `temp_dir`: it holds the documents the scanner finds in the
    /// text. Fails, with the scanner's words, where the scanner refuses the
    /// text.
    pub fn builder(content: &str, temp_dir: String) -> (made: Result<
        ConfigurationBuilder,
        ConfigFileError,
    >)
        ensures
            match made {
                Ok(builder) => {
                    &&& documents_of(content@) == Ok::<Seq<Node>, Seq<char>>(builder.documents())
                    &&& builder.temp_dir() == temp_dir@
                    &&& builder.spec_tasks().len() == 0
                    &&& builder.spec_mailer() is None
                },
                Err(e) => e matches ConfigFileError::UnableToScan(words) && documents_of(content@)
                    == Err::<Seq<Node>, Seq<char>>(words@),
            },
    {
        ConfigurationBuilder::try_new(content, temp_dir)
    }

    /// Whether there is at least one task to run.
    pub fn has_tasks(&self) -> (some: bool)
        ensures
            some == (self.tasks@.len() > 0),
    {
        self.tasks.len() > 0
    }
}

} // verus!
