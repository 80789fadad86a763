use toktok::checker::structs::{CheckerResult, CheckerStatus};
use toktok::task_info::TaskInfo;
use toktok::task_logger::TaskLogger;
use toktok::text::{contains_char, decimal, ends_with_char};
use toktok::time::{Date, Interval, Timestamp, DURATION_LIMIT, INTERVAL_MAX, NANOS_PER_SEC};

fn day() -> Date {
    Date { year: 2024, month: 6, day: 15 }
}

#[test]
fn timestamps_count_nanoseconds() {
    assert_eq!(Timestamp::from_nanos(-7).as_nanos(), -7);
    assert_eq!(Timestamp::from_secs(3).as_nanos(), 3_000_000_000);
    assert_eq!(Timestamp::from_secs(i64::MIN).as_nanos(), i64::MIN as i128 * NANOS_PER_SEC);
    assert_eq!(Timestamp::from_secs(2), Timestamp::from_nanos(2 * NANOS_PER_SEC));
}

#[test]
fn due_means_reached_or_passed() {
    let due = Timestamp::from_secs(10);
    assert!(due.is_due(Timestamp::from_secs(10)));
    assert!(due.is_due(Timestamp::from_secs(11)));
    assert!(!due.is_due(Timestamp::from_nanos(10 * NANOS_PER_SEC - 1)));
    assert!(due.is_before(Timestamp::from_secs(11)));
    assert!(!due.is_before(Timestamp::from_secs(10)));
}

#[test]
fn intervals_are_positive() {
    assert!(Interval::from_secs(0).is_none());
    assert!(Interval::from_secs(-1).is_none());
    assert!(Interval::from_secs(i64::MIN).is_none());
    assert_eq!(Interval::from_secs(1).unwrap().as_nanos(), NANOS_PER_SEC);
    assert_eq!(Interval::from_secs(i64::MAX).unwrap().as_nanos(), i64::MAX as i128 * NANOS_PER_SEC);
    assert!(Interval::from_nanos(0).is_none());
    assert!(Interval::from_nanos(-1).is_none());
    assert!(Interval::from_nanos(INTERVAL_MAX + 1).is_none());
    assert_eq!(Interval::from_nanos(1).unwrap().as_nanos(), 1);
    assert_eq!(Interval::from_nanos(INTERVAL_MAX).unwrap().as_nanos(), INTERVAL_MAX);
}

#[test]
fn plus_adds_the_interval() {
    let at = Timestamp::from_secs(100);
    assert_eq!(at.plus(Interval::from_secs(5).unwrap()).as_nanos(), 105 * NANOS_PER_SEC);
    assert_eq!(
        Timestamp::from_nanos(-3).plus(Interval::from_nanos(2).unwrap()).as_nanos(),
        -1
    );
    assert_eq!(
        Timestamp::from_nanos(DURATION_LIMIT).plus(Interval::from_nanos(INTERVAL_MAX).unwrap()).as_nanos(),
        DURATION_LIMIT + INTERVAL_MAX
    );
}

#[test]
fn task_info_starts_due() {
    let interval = Interval::from_secs(30).unwrap();
    let info = TaskInfo::starting_at("svc".to_string(), interval, Timestamp::from_secs(9));
    assert_eq!(info.name, "svc");
    assert_eq!(info.interval, interval);
    assert_eq!(info.last_execution_at, Timestamp::from_secs(9));
    assert_eq!(info.next_execution_at, Timestamp::from_secs(9));
}

#[test]
fn task_info_new_reads_the_clock() {
    let info = TaskInfo::new("svc".to_string(), Interval::from_secs(30).unwrap());
    assert_eq!(info.name, "svc");
    assert_eq!(info.next_execution_at, info.last_execution_at);
    let now = info.next_execution_at.as_nanos();
    assert!(-DURATION_LIMIT <= now && now <= DURATION_LIMIT);
    assert!(now > 1_577_836_800 * NANOS_PER_SEC);
    assert!(now < 7_258_118_400 * NANOS_PER_SEC);
}

#[test]
fn decimal_writes_integers_as_format_does() {
    for n in [0i64, 7, 9, 10, 11, 99, 100, 2024, -1, -10, -9999, i64::MAX, i64::MIN] {
        assert_eq!(decimal(n), format!("{n}"));
    }
    assert_eq!(decimal(-44), "-44");
    assert_eq!(decimal(1_000_000), "1000000");
}

#[test]
fn character_searches() {
    assert!(contains_char("host:80", ':'));
    assert!(!contains_char("host", ':'));
    assert!(!contains_char("", ':'));
    assert!(contains_char("héllo:", ':'));
    assert!(contains_char("é", 'é'));
    assert!(ends_with_char("dir/", '/'));
    assert!(!ends_with_char("dir", '/'));
    assert!(!ends_with_char("", '/'));
    assert!(!ends_with_char("/dir", '/'));
}

#[test]
fn log_folder_is_below_the_temp_dir() {
    assert_eq!(TaskLogger::folder("/tmp", "svc"), "/tmp/toktok/svc/");
    assert_eq!(TaskLogger::folder("/", "svc"), "/toktok/svc/");
    assert_eq!(TaskLogger::folder("/var/tmp/", "a b"), "/var/tmp//toktok/a b/");
}

#[test]
fn log_folder_with_and_without_a_slash_of_its_own() {
    assert_eq!(TaskLogger::folder_below("/tmp", false, "svc"), "/tmp/toktok/svc/");
    assert_eq!(TaskLogger::folder_below("/", true, "svc"), "/toktok/svc/");
    assert_eq!(TaskLogger::folder_below("", false, ""), "/toktok//");
}

#[test]
fn log_file_is_named_by_day_and_task() {
    assert_eq!(TaskLogger::filename_for("svc", day()), "2024-6-15-svc.log");
    assert_eq!(
        TaskLogger::filename_for("svc", Date { year: -44, month: 3, day: 5 }),
        "-44-3-5-svc.log"
    );
    assert_eq!(
        TaskLogger::filename_for("", Date { year: 9999, month: 12, day: 31 }),
        "9999-12-31-.log"
    );
    let today = TaskLogger::todays_filename("svc");
    assert!(today.ends_with("-svc.log"));
    assert_eq!(today.matches('-').count(), 3);
    assert!(today.starts_with("20") || today.starts_with("21"));
}

#[test]
fn logger_knows_its_file() {
    let logger = TaskLogger::new("svc", "/tmp", day());
    assert_eq!(logger.file_dir(), "/tmp/toktok/svc/");
    assert_eq!(logger.file_path(), "/tmp/toktok/svc/2024-6-15-svc.log");
    let live = TaskLogger::try_new("svc", "/tmp");
    assert_eq!(live.file_dir(), "/tmp/toktok/svc/");
    assert!(live.file_path().ends_with("-svc.log"));
}

#[test]
fn log_line_on_the_same_day() {
    let logger = TaskLogger::new("svc", "/tmp", day());
    let result = CheckerResult::new("svc".to_string(), CheckerStatus::Timeout, "slow".to_string());
    let write = logger.log_at(&result, day(), "2024-06-15T07:00:00.123");
    assert_eq!(write.reopen, None);
    assert_eq!(write.line, "[2024-06-15T07:00:00.123] Timeout - slow\n");
}

#[test]
fn log_changes_file_on_another_day() {
    let logger = TaskLogger::new("svc", "/tmp", day());
    let result = CheckerResult::new("svc".to_string(), CheckerStatus::Success, "ok".to_string());
    for (other, name) in [
        (Date { year: 2024, month: 6, day: 16 }, "2024-6-16-svc.log"),
        (Date { year: 2024, month: 7, day: 15 }, "2024-7-15-svc.log"),
        (Date { year: 2025, month: 6, day: 15 }, "2025-6-15-svc.log"),
    ] {
        let write = logger.log_at(&result, other, "t");
        assert_eq!(write.reopen, Some(format!("/tmp/toktok/svc//{name}")));
        assert_eq!(write.line, "[t] Success - ok\n");
    }
}

#[test]
fn log_by_the_clock_writes_a_stamped_line() {
    let mut logger = TaskLogger::new("svc", "/tmp", day());
    let result = CheckerResult::new("svc".to_string(), CheckerStatus::Error, "down".to_string());
    let write = logger.log(&result);
    assert!(write.line.starts_with("[2"));
    assert!(write.line.contains('T'));
    assert!(write.line.ends_with("] Error - down\n"));
    // the log was opened on a day long past, so the file changes
    let path = write.reopen.unwrap();
    assert!(path.starts_with("/tmp/toktok/svc//2"));
    assert!(path.ends_with("-svc.log"));
    assert_eq!(logger.file_path(), "/tmp/toktok/svc/2024-6-15-svc.log");
}
