use toktok::checker::error::CheckerParseError;
use toktok::checker::server::SocketLookup;
use toktok::checker::Checker;
use toktok::notification::email::{CredentialsFile, MailCredentials, MailNotifier, MailNotifierBuilder};
use toktok::notification::error::NotificationParseError;
use toktok::notification::file::FileNotifier;
use toktok::notification::NotificationType;
use toktok::parser::config::ConfigurationBuilder;
use toktok::parser::error::{ConfigError, ConfigFileError, ConfigParseError};
use toktok::parser::keys::{ConfigKey, ConfigKeyInvalidFormat};
use toktok::parser::yaml::Node;
use toktok::parser::Configuration;
use toktok::time::{Date, Timestamp};

const CONFIG: &str = "
services:
  site:
    interval: 10
    configuration:
      type: web
      url: http://example.com
      expected_http_code: 200
      timeout: 3
      headers:
        Accept: text/html
  db:
    interval: 5
    configuration:
      type: server
      socket: 127.0.0.1:5432
notification:
  mailer:
    smtp_domain: smtp.example.com
    smtp_credentials: /etc/toktok/credentials
    from: alerts@example.com
    to: ops@example.com
    cc:
      - ' first@example.com '
      - second@example.com
";

fn literal(socket: &str) -> (String, SocketLookup) {
    let lookup = SocketLookup {
        host_is_ip: true,
        parsed: Ok(socket.to_string()),
        looked_up: Ok(vec![socket.to_string()]),
    };
    (socket.to_string(), lookup)
}

fn named(socket: &str, found: &[&str]) -> (String, SocketLookup) {
    let lookup = SocketLookup {
        host_is_ip: false,
        parsed: Err("invalid socket address syntax".to_string()),
        looked_up: Ok(found.iter().map(|a| a.to_string()).collect()),
    };
    (socket.to_string(), lookup)
}

fn text(s: &str) -> Node {
    Node::String(s.to_string())
}

fn map(entries: Vec<(&str, Node)>) -> Node {
    Node::Hash(entries.into_iter().map(|(k, v)| (text(k), v)).collect())
}

fn day() -> Date {
    Date { year: 2024, month: 6, day: 15 }
}

fn mail_section() -> Vec<(&'static str, Node)> {
    vec![
        ("smtp_domain", text("smtp.example.com")),
        ("from", text("alerts@example.com")),
        ("to", text("ops@example.com")),
    ]
}

fn words(err: &NotificationParseError) -> String {
    match err {
        NotificationParseError::InternalParse(words) => words.clone(),
        other => panic!("unexpected error {other:?}"),
    }
}

#[test]
fn yaml_text_is_scanned_into_nodes() {
    let documents = ConfigurationBuilder::load_config("a: 1\nb: [x, 2.5, true, ~]\nc:\n  d: -7\n")
        .unwrap();
    assert_eq!(
        documents,
        vec![Node::Hash(vec![
            (text("a"), Node::Integer(1)),
            (
                text("b"),
                Node::Array(vec![
                    text("x"),
                    Node::Real("2.5".to_string()),
                    Node::Boolean(true),
                    Node::Null,
                ])
            ),
            (text("c"), Node::Hash(vec![(text("d"), Node::Integer(-7))])),
        ])]
    );
}

#[test]
fn yaml_that_does_not_scan_is_refused() {
    let err = ConfigurationBuilder::load_config("a: [1, 2").unwrap_err();
    match &err {
        ConfigFileError::UnableToScan(words) => assert!(!words.is_empty()),
        other => panic!("unexpected error {other:?}"),
    }
    assert!(err.to_string().starts_with("Unable to create a base scan of config file: "));
    assert!(Configuration::builder("a: [1, 2", "/tmp".to_string()).is_err());
}

#[test]
fn node_lookup_finds_the_first_entry_under_a_key() {
    let node = Node::Hash(vec![
        (Node::Integer(1), text("number key")),
        (text("k"), Node::Integer(1)),
        (text("k"), Node::Integer(2)),
        (text("other"), Node::Null),
    ]);
    assert_eq!(node.get("k"), Some(&Node::Integer(1)));
    assert_eq!(node.get("other"), Some(&Node::Null));
    assert_eq!(node.get("missing"), None);
    assert_eq!(node.get("1"), None);
    assert_eq!(Node::Array(vec![text("k")]).get("k"), None);
    assert_eq!(text("k").get("k"), None);
}

#[test]
fn node_accessors() {
    assert_eq!(text("abc").as_str(), Some("abc"));
    assert_eq!(Node::Integer(3).as_str(), None);
    assert!(map(vec![]).is_hash());
    assert!(!Node::Null.is_hash());
    assert!(Node::BadValue.is_badvalue());
    assert!(!Node::Null.is_badvalue());
}

#[test]
fn services_become_tasks_in_file_order() {
    let builder = Configuration::builder(CONFIG, "/tmp".to_string()).unwrap();
    let now = Timestamp::from_secs(1_700_000_000);
    let lookups = vec![literal("127.0.0.1:5432")];
    let config = builder.services_at(now, day(), &lookups).unwrap().build().unwrap();
    assert!(config.has_tasks());
    assert!(config.mailer.is_none());
    assert_eq!(config.tasks.len(), 2);

    let site = &config.tasks[0];
    assert_eq!(site.name(), "site");
    assert_eq!(site.interval().as_nanos(), 10_000_000_000);
    assert_eq!(*site.next_execution_at(), now);
    assert_eq!(*site.last_execution_at(), now);
    match site.checker() {
        Checker::Web(web) => {
            assert_eq!(web.url(), "http://example.com");
            assert_eq!(web.expected_code().as_u16(), 200);
            assert_eq!(web.timeout(), Some(3));
            assert_eq!(*web.headers(), vec![("Accept".to_string(), "text/html".to_string())]);
        }
        Checker::Server(_) => panic!("read a server check"),
    }

    let db = &config.tasks[1];
    assert_eq!(db.name(), "db");
    assert_eq!(db.interval().as_nanos(), 5_000_000_000);
    match db.checker() {
        Checker::Server(server) => {
            assert_eq!(server.host(), "127.0.0.1:5432");
            assert_eq!(server.timeout(), None);
        }
        Checker::Web(_) => panic!("read a web check"),
    }
}

#[test]
fn services_by_the_clock_start_due() {
    let builder = Configuration::builder(CONFIG, "/tmp".to_string()).unwrap();
    let lookups = vec![literal("127.0.0.1:5432")];
    let config = builder.services(&lookups).unwrap().build().unwrap();
    assert_eq!(config.tasks.len(), 2);
    let first = config.tasks[0].next_execution_at().as_nanos();
    assert!(first > 1_577_836_800_000_000_000);
    assert_eq!(config.tasks[1].next_execution_at().as_nanos(), first);
    assert_eq!(config.tasks[0].last_execution_at().as_nanos(), first);
}

#[test]
fn configuration_without_services_is_refused() {
    for content in ["notification: {}\n", "services: []\n", "services: none\n", ""] {
        let builder = Configuration::builder(content, "/tmp".to_string()).unwrap();
        let err = match builder.services_at(Timestamp::from_secs(0), day(), &Vec::new()) {
            Err(err) => err,
            Ok(_) => panic!("read services from {content:?}"),
        };
        match &err {
            CheckerParseError::InternalParse(words) => {
                assert_eq!(words, "Invalid services format or none was provided")
            }
            other => panic!("unexpected error {other:?}"),
        }
    }
}

#[test]
fn service_with_a_name_that_is_no_text_is_refused() {
    let builder = Configuration::builder("services:\n  7:\n    interval: 3\n", "/tmp".to_string())
        .unwrap();
    match builder.services_at(Timestamp::from_secs(0), day(), &Vec::new()) {
        Err(CheckerParseError::InternalParse(words)) => {
            assert_eq!(words, "Invalid services format or none was provided")
        }
        _ => panic!("took a number for a service name"),
    }
}

#[test]
fn first_refused_service_decides_the_error() {
    let content = "
services:
  good:
    interval: 1
    configuration:
      type: server
      socket: a:1
  no_interval:
    configuration:
      type: server
      socket: a:1
  no_configuration:
    interval: 1
";
    let builder = Configuration::builder(content, "/tmp".to_string()).unwrap();
    assert_eq!(builder.sockets(), vec!["a:1".to_string(), "a:1".to_string()]);
    let lookups = vec![named("a:1", &["10.0.0.1:1"])];
    match builder.services_at(Timestamp::from_secs(0), day(), &lookups) {
        Err(err) => {
            assert!(matches!(err, CheckerParseError::KeyNotFound(ConfigKey::Interval)));
            assert_eq!(err.to_string(), "Key 'interval' is mandatory.");
        }
        Ok(_) => panic!("took a service without interval"),
    }
}

#[test]
fn interval_must_be_a_positive_integer() {
    for interval in ["0", "-5", "soon", "1.5"] {
        let content = format!(
            "services:\n  s:\n    interval: {interval}\n    configuration:\n      type: server\n      socket: a:1\n"
        );
        let builder = Configuration::builder(&content, "/tmp".to_string()).unwrap();
        assert!(matches!(
            builder.services_at(Timestamp::from_secs(0), day(), &Vec::new()),
            Err(CheckerParseError::KeyNotFound(ConfigKey::Interval))
        ));
    }
}

#[test]
fn service_needs_a_configuration() {
    let builder =
        Configuration::builder("services:\n  s:\n    interval: 1\n", "/tmp".to_string()).unwrap();
    match builder.services_at(Timestamp::from_secs(0), day(), &Vec::new()) {
        Err(err) => {
            assert!(matches!(err, CheckerParseError::KeyNotFound(ConfigKey::Configuration)));
            assert_eq!(err.to_string(), "Key 'configuration' is mandatory.");
        }
        Ok(_) => panic!("took a service without configuration"),
    }
}

#[test]
fn build_needs_a_task() {
    let builder = ConfigurationBuilder::from_documents(Vec::new(), "/tmp".to_string());
    match builder.build() {
        Err(err) => {
            assert_eq!(err, ConfigParseError::NoServiceProvided);
            assert_eq!(err.to_string(), "None service provided, aborting.");
            assert_eq!(err.message(), "None service provided, aborting.");
        }
        Ok(_) => panic!("built a configuration without tasks"),
    }
    let builder = Configuration::builder("services: {}\n", "/tmp".to_string()).unwrap();
    let builder = builder.services_at(Timestamp::from_secs(0), day(), &Vec::new()).unwrap();
    assert!(builder.build().is_err());
}

#[test]
fn mailer_is_read_with_its_lists() {
    let builder = Configuration::builder(CONFIG, "/tmp".to_string()).unwrap();
    let section = builder.mailer_section().unwrap();
    let settings = MailNotifier::settings(section).unwrap();
    assert_eq!(settings.smtp_domain, "smtp.example.com");
    assert_eq!(settings.from, "alerts@example.com");
    assert_eq!(settings.to, "ops@example.com");
    assert_eq!(settings.credentials_path, Some("/etc/toktok/credentials".to_string()));

    let credentials =
        MailNotifierBuilder::credentials(CredentialsFile::Content("bob\nsecret\n".to_string()))
            .unwrap();
    let lookups = vec![literal("127.0.0.1:5432")];
    let builder = builder.services_at(Timestamp::from_secs(0), day(), &lookups).unwrap();
    let config = builder.mailer(credentials).unwrap().build().unwrap();
    let mailer = config.mailer.unwrap();
    assert_eq!(mailer.smtp_domain(), "smtp.example.com");
    assert_eq!(mailer.from(), "alerts@example.com");
    assert_eq!(mailer.to(), "ops@example.com");
    assert_eq!(*mailer.cc(), vec!["first@example.com".to_string(), "second@example.com".to_string()]);
    assert!(mailer.bcc().is_empty());
    let credentials = mailer.credentials().as_ref().unwrap();
    assert_eq!(credentials.user, "bob");
    assert_eq!(credentials.pass, "secret");
}

#[test]
fn configuration_without_mailer_has_none() {
    for content in ["services: {}\n", "notification: {}\n", "notification:\n  mailer: off\n", ""] {
        let builder = Configuration::builder(content, "/tmp".to_string()).unwrap();
        assert!(builder.mailer_section().is_none());
        assert!(builder.mailer(None).is_ok());
    }
}

#[test]
fn mailer_needs_domain_sender_and_receiver() {
    for (missing, key) in [
        ("smtp_domain", ConfigKey::SmtpDomain),
        ("from", ConfigKey::MailFrom),
        ("to", ConfigKey::MailTo),
    ] {
        let section: Vec<(&str, Node)> =
            mail_section().into_iter().filter(|(k, _)| *k != missing).collect();
        let err = MailNotifier::try_from(&map(section), None).unwrap_err();
        match &err {
            NotificationParseError::KeyNotFoundAt(k, NotificationType::Email) => {
                assert_eq!(*k, key)
            }
            other => panic!("unexpected error {other:?}"),
        }
        assert_eq!(
            err.to_string(),
            format!("Key '{missing}' is mandatory for a notification of type email.")
        );
    }
    let err = MailNotifier::settings(&map(vec![])).unwrap_err();
    assert!(matches!(
        err,
        NotificationParseError::KeyNotFoundAt(ConfigKey::SmtpDomain, NotificationType::Email)
    ));
}

#[test]
fn credentials_path_is_optional_text() {
    let settings = MailNotifier::settings(&map(mail_section())).unwrap();
    assert_eq!(settings.credentials_path, None);
    let mut section = mail_section();
    section.push(("smtp_credentials", Node::Integer(3)));
    assert_eq!(MailNotifier::settings(&map(section)).unwrap().credentials_path, None);
}

#[test]
fn sender_and_receiver_must_be_addresses() {
    let mut section = mail_section();
    section[1] = ("from", text("no-at-sign"));
    section[2] = ("to", text("also bad"));
    let err = MailNotifier::try_from(&map(section), None).unwrap_err();
    assert_eq!(
        words(&err),
        "Error parsing the 'from' mail address, double check it: Missing domain or user"
    );

    let mut section = mail_section();
    section[2] = ("to", text("no-at-sign"));
    let err = MailNotifier::try_from(&map(section), None).unwrap_err();
    assert_eq!(
        words(&err),
        "Error parsing the 'to' mail address, double check it: Missing domain or user"
    );
}

#[test]
fn copy_lists_must_be_sequences_of_text() {
    for (key, bad) in [
        ("cc", text("a@example.com")),
        ("cc", Node::Array(vec![])),
        ("cc", Node::Array(vec![text("a@example.com"), Node::Integer(1)])),
        ("bcc", Node::Null),
        ("bcc", map(vec![])),
    ] {
        let mut section = mail_section();
        section.push((key, bad));
        let err = MailNotifier::try_from(&map(section), None).unwrap_err();
        assert_eq!(words(&err), format!("Key '{key}' must have a YAML Array format"));
    }
}

#[test]
fn missing_copy_lists_are_no_error() {
    let mut section = mail_section();
    section.push(("cc", Node::BadValue));
    let mailer = MailNotifier::try_from(&map(section), None).unwrap();
    assert!(mailer.cc().is_empty());
    assert!(mailer.bcc().is_empty());
    assert!(mailer.credentials().is_none());
    assert_eq!(MailNotifier::recipients(&map(mail_section()), ConfigKey::MailCc).unwrap(), None);
}

#[test]
fn first_bad_address_of_a_list_decides_the_error() {
    let mut section = mail_section();
    section.push(("cc", Node::Array(vec![text("ok@example.com")])));
    section.push((
        "bcc",
        Node::Array(vec![text("fine@example.com"), text(" broken "), text("worse")]),
    ));
    let err = MailNotifier::try_from(&map(section), None).unwrap_err();
    assert_eq!(
        words(&err),
        "The email address 'broken' at bcc list is not valid: Missing domain or user"
    );

    let mut section = mail_section();
    section.push(("cc", Node::Array(vec![text("nobody")])));
    section.push(("bcc", text("not a list")));
    let err = MailNotifier::try_from(&map(section), None).unwrap_err();
    assert_eq!(
        words(&err),
        "The email address 'nobody' at cc list is not valid: Missing domain or user"
    );
}

#[test]
fn builder_adds_lists_in_order() {
    let builder =
        MailNotifierBuilder::new("smtp.x", "a@example.com", "b@example.com", None).unwrap();
    let builder = builder.cc(vec!["c@example.com".to_string()]).unwrap();
    let builder = builder.cc(vec!["d@example.com".to_string()]).unwrap();
    let builder = builder.bcc(vec!["e@example.com".to_string()]).unwrap();
    let mailer = builder.build();
    assert_eq!(*mailer.cc(), vec!["c@example.com".to_string(), "d@example.com".to_string()]);
    assert_eq!(*mailer.bcc(), vec!["e@example.com".to_string()]);
    assert!(MailNotifierBuilder::new("smtp.x", "a@example.com", "b@example.com", None)
        .unwrap()
        .cc(vec!["c@example.com".to_string(), "x".to_string()])
        .is_err());
}

#[test]
fn credentials_come_from_the_first_two_lines() {
    let read = |content: &str| {
        MailNotifierBuilder::credentials(CredentialsFile::Content(content.to_string())).unwrap()
    };
    let both = read("user\r\npass\nrest\n").unwrap();
    assert_eq!(both.user, "user");
    assert_eq!(both.pass, "pass");
    let MailCredentials { user, pass } = read("u\n\n").unwrap();
    assert_eq!(user, "u");
    assert_eq!(pass, "");
    assert!(read("only-one-line").is_none());
    assert!(read("\n").is_none());
    assert!(MailNotifierBuilder::credentials(CredentialsFile::NotGiven).unwrap().is_none());
}

#[test]
fn credentials_file_failures_are_errors() {
    let err = MailNotifierBuilder::credentials(CredentialsFile::Missing).unwrap_err();
    assert_eq!(words(&err), "The path in smtp_credentials does not exists.");

    let err = MailNotifierBuilder::credentials(CredentialsFile::Content(String::new()))
        .unwrap_err();
    assert_eq!(words(&err), "Email credentials cannot be empty");

    let err = MailNotifierBuilder::credentials(CredentialsFile::OpenFailed(
        "/p".to_string(),
        "denied".to_string(),
    ))
    .unwrap_err();
    assert!(matches!(err, NotificationParseError::UnableToOpenFile(_, _)));
    assert_eq!(err.to_string(), "Unable to open the desired file.\nPath: /p\nError: denied");

    let err = MailNotifierBuilder::credentials(CredentialsFile::ReadFailed(
        "/p".to_string(),
        "not utf-8".to_string(),
    ))
    .unwrap_err();
    assert!(matches!(err, NotificationParseError::UnableToReadFile(_, _)));
    assert_eq!(err.to_string(), "Unable to read the desired file.\nPath: /p\nError: not utf-8");
    assert_eq!(err.message(), err.to_string());
}

#[test]
fn notification_error_texts() {
    let err = NotificationParseError::InvalidFormat(ConfigKey::MailCc, "a list".to_string());
    assert_eq!(err.to_string(), "Invalid format for 'cc'. Expected: a list");
    let err = NotificationParseError::InternalBuild("no relay".to_string());
    assert_eq!(err.to_string(), "no relay");
    let err = NotificationParseError::InternalParse("bad".to_string());
    assert_eq!(err.to_string(), "bad");
    assert_eq!(NotificationType::Email.to_string(), "email");
    assert_eq!(NotificationType::Email.name(), "email");
}

#[test]
fn config_file_error_texts() {
    let err = ConfigFileError::UnableToOpen("not found".to_string());
    assert_eq!(err.to_string(), "Unable to open the config file: not found");
    let err = ConfigFileError::UnableToRead("bad bytes".to_string());
    assert_eq!(err.to_string(), "Unable to read the config file: bad bytes");
    let err = ConfigFileError::UnableToScan("line 1".to_string());
    assert_eq!(err.to_string(), "Unable to create a base scan of config file: line 1");
    assert_eq!(err.message(), "Unable to create a base scan of config file: line 1");
    let err = CheckerParseError::KeyNotFound(ConfigKey::Type);
    assert_eq!(err.message(), "Key 'type' is mandatory.");
}

#[test]
fn config_keys_are_written_as_in_the_file() {
    let expected = [
        (ConfigKey::Service, "service"),
        (ConfigKey::Interval, "interval"),
        (ConfigKey::Timeout, "timeout"),
        (ConfigKey::Configuration, "configuration"),
        (ConfigKey::Type, "type"),
        (ConfigKey::Url, "url"),
        (ConfigKey::ExpectedHttpCode, "expected_http_code"),
        (ConfigKey::Headers, "headers"),
        (ConfigKey::Socket, "socket"),
        (ConfigKey::Notification, "notification"),
        (ConfigKey::SmtpDomain, "smtp_domain"),
        (ConfigKey::SmtpCredentials, "smtp_credentials"),
        (ConfigKey::MailFrom, "from"),
        (ConfigKey::MailTo, "to"),
        (ConfigKey::MailCc, "cc"),
        (ConfigKey::MailBcc, "bcc"),
    ];
    for (key, name) in expected {
        assert_eq!(key.as_str(), name);
        assert_eq!(key.to_string(), name);
    }
}

#[test]
fn invalid_format_says_what_was_expected() {
    assert_eq!(
        ConfigKeyInvalidFormat::new(ConfigKey::ExpectedHttpCode).to_string(),
        "Must be a valid HTTP Code"
    );
    assert_eq!(
        ConfigKeyInvalidFormat::new(ConfigKey::Timeout).to_string(),
        "Must be a number greater than zero"
    );
    assert_eq!(
        ConfigKeyInvalidFormat::new(ConfigKey::Socket).to_string(),
        "Must be a value with pattern IP_ADDRESS:PORT or DOMAIN:PORT"
    );
    assert_eq!(ConfigKeyInvalidFormat::new(ConfigKey::Url).to_string(), "Undefined format");
    assert_eq!(ConfigKeyInvalidFormat::new(ConfigKey::MailTo).0, ConfigKey::MailTo);
}

#[test]
fn mail_body_names_service_status_and_message() {
    let result = toktok::checker::structs::CheckerResult::new(
        "api".to_string(),
        toktok::checker::structs::CheckerStatus::Error,
        "down".to_string(),
    );
    let expected = "
<!DOCTYPE html>
<html>
  <head>
    <style>
      p {margin: .5em 0 .5em 0; font-size: 16px;}
    </style>
  </head>
  <body>
    <h1>Toktok!</h1>
    <p>Hello, a service reported with an unexpected status through the last verification</p>
    <p>Service: api</p>
    <p>Reported status: Error</p>
    <p>Message: down</p>
  </body>
</html>
";
    assert_eq!(MailNotifier::body(&result), expected);
    assert_eq!(MailNotifier::subject(), "Toktok Service Alert!");
}

#[test]
fn file_notifier_paths() {
    let notifier = FileNotifier::new("/var/alerts/".to_string());
    assert_eq!(notifier.directory(), "/var/alerts/");
    assert_eq!(FileNotifier::normalized("/var/alerts".to_string()), "/var/alerts/");
    assert_eq!(FileNotifier::normalized("/var/alerts/".to_string()), "/var/alerts/");
    assert_eq!(FileNotifier::normalized(String::new()), "/");
    assert_eq!(FileNotifier::file_name(day()), "2024-6-15.txt");
    assert_eq!(notifier.file_path(day()), "/var/alerts/2024-6-15.txt");
}

#[test]
fn credentials_from_lines() {
    let two = MailNotifierBuilder::credentials_from(vec![
        "user".to_string(),
        "pass".to_string(),
        "more".to_string(),
    ])
    .unwrap();
    assert_eq!(two.user, "user");
    assert_eq!(two.pass, "pass");
    assert!(MailNotifierBuilder::credentials_from(vec!["user".to_string()]).is_none());
    assert!(MailNotifierBuilder::credentials_from(Vec::new()).is_none());
}

#[test]
fn refused_parties_and_recipients_are_errors() {
    assert!(MailNotifierBuilder::party_checked(ConfigKey::MailFrom, None).is_ok());
    let err = MailNotifierBuilder::party_checked(ConfigKey::MailTo, Some("no user".to_string()))
        .unwrap_err();
    assert_eq!(
        words(&err),
        "Error parsing the 'to' mail address, double check it: no user"
    );
    assert!(MailNotifierBuilder::recipient_checked("a@b.c", "cc", None).is_ok());
    let err = MailNotifierBuilder::recipient_checked("x", "bcc", Some("no domain".to_string()))
        .unwrap_err();
    assert_eq!(words(&err), "The email address 'x' at bcc list is not valid: no domain");
}

#[test]
fn every_document_of_a_text_becomes_a_node() {
    let documents = ConfigurationBuilder::load_config("a: 1\n---\nb: 2\n---\n- c\n").unwrap();
    assert_eq!(
        documents,
        vec![
            Node::Hash(vec![(text("a"), Node::Integer(1))]),
            Node::Hash(vec![(text("b"), Node::Integer(2))]),
            Node::Array(vec![text("c")]),
        ]
    );
    assert_eq!(ConfigurationBuilder::load_config("").unwrap(), Vec::<Node>::new());
    assert_eq!(ConfigurationBuilder::load_config("just text").unwrap(), vec![text("just text")]);
}

#[test]
fn scanner_error_is_passed_on_in_its_own_words() {
    let first = ConfigurationBuilder::load_config("a: [1, 2").unwrap_err();
    let again = ConfigurationBuilder::load_config("a: [1, 2").unwrap_err();
    let (first, again) = match (first, again) {
        (ConfigFileError::UnableToScan(first), ConfigFileError::UnableToScan(again)) => {
            (first, again)
        }
        other => panic!("unexpected errors {other:?}"),
    };
    assert_eq!(first, again);
    assert!(first.contains(" at byte "));
    assert!(first.contains(" line "));
    assert!(first.contains(" column "));
    assert!(!first.contains("a: [1, 2"));
}

#[test]
fn sockets_of_the_services_are_listed_in_order() {
    let builder = Configuration::builder(CONFIG, "/tmp".to_string()).unwrap();
    assert_eq!(builder.sockets(), vec!["127.0.0.1:5432".to_string()]);
    let content = "
services:
  one:
    configuration:
      socket: first:1
  two:
    interval: 3
  three:
    configuration:
      socket: no-colon
  four:
    configuration:
      type: server
      socket: 10.0.0.4:4
";
    let builder = Configuration::builder(content, "/tmp".to_string()).unwrap();
    assert_eq!(builder.sockets(), vec!["first:1".to_string(), "10.0.0.4:4".to_string()]);
    assert!(Configuration::builder("a: 1\n", "/tmp".to_string()).unwrap().sockets().is_empty());
    assert!(Configuration::builder("", "/tmp".to_string()).unwrap().sockets().is_empty());
}

#[test]
fn server_address_comes_from_the_lookup_of_its_socket() {
    let content = "
services:
  db:
    interval: 5
    configuration:
      type: server
      socket: db.internal:5432
  cache:
    interval: 5
    configuration:
      type: server
      socket: 10.0.0.9:6379
";
    let builder = Configuration::builder(content, "/tmp".to_string()).unwrap();
    let lookups = vec![
        literal("10.0.0.9:6379"),
        named("db.internal:5432", &["10.0.0.5:5432", "10.0.0.6:5432"]),
        named("db.internal:5432", &["10.9.9.9:5432"]),
    ];
    let config =
        builder.services_at(Timestamp::from_secs(0), day(), &lookups).unwrap().build().unwrap();
    let hosts: Vec<String> = config
        .tasks
        .iter()
        .map(|task| match task.checker() {
            Checker::Server(server) => server.host().to_string(),
            Checker::Web(_) => panic!("read a web check"),
        })
        .collect();
    assert_eq!(hosts, vec!["10.0.0.5:5432".to_string(), "10.0.0.9:6379".to_string()]);
}

#[test]
fn bad_socket_of_an_earlier_service_comes_before_a_later_fault() {
    let content = "
services:
  first:
    interval: 1
    configuration:
      type: server
      socket: 127.0.0.1:x
  second:
    configuration:
      type: server
      socket: a:1
";
    let bad = SocketLookup {
        host_is_ip: true,
        parsed: Err("invalid socket address syntax".to_string()),
        looked_up: Err("invalid port value".to_string()),
    };
    let lookups = vec![("127.0.0.1:x".to_string(), bad), named("a:1", &["10.0.0.1:1"])];
    let builder = Configuration::builder(content, "/tmp".to_string()).unwrap();
    match builder.services_at(Timestamp::from_secs(0), day(), &lookups) {
        Err(CheckerParseError::InternalParse(words)) => {
            assert_eq!(words, "Invalid socket: invalid socket address syntax")
        }
        _ => panic!("the bad socket was not refused first"),
    }
}

#[test]
fn service_without_a_lookup_for_its_socket_is_refused() {
    let builder = Configuration::builder(CONFIG, "/tmp".to_string()).unwrap();
    let lookups = vec![literal("127.0.0.1:9999")];
    match builder.services_at(Timestamp::from_secs(0), day(), &lookups) {
        Err(CheckerParseError::InternalParse(words)) => {
            assert_eq!(words, "No IP resolution found to the socket")
        }
        _ => panic!("a socket without a lookup was taken"),
    }
}
