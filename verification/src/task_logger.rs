//! The per-task log: which file a result goes to and what is written there.
//! The files themselves are the caller's; this module says their names and
//! their lines.

use vstd::prelude::*;
use vstd::string::*;
use crate::checker::structs::{CheckerResult, CheckerResultView};
use crate::text::{decimal, decimal_text};
use crate::time::{clock_stamp, clock_today, Date};

verus! {

/// Whether `std::path::Path::ends_with` finds that the path `path` ends
/// with the path `tail`, component by component.
pub uninterp spec fn path_ends_with(path: Seq<char>, tail: Seq<char>) -> bool;

/// `std::path::Path::ends_with`: whether the components of `path` end
/// with those of `tail`. The rule is named, not spelled out.
#[verifier::external_body]
fn ends_with_path(path: &str, tail: &str) -> (ends: bool)
    ensures
        ends == path_ends_with(path@, tail@),
{
    std::path::Path::new(path).ends_with(tail)
}

/// The directory that holds the log files of the task `task_name`, below
/// the directory for temporary files `temp_dir`, where `at_slash` says
/// whether that path ends with a slash of its own.
pub open spec fn folder_given(temp_dir: Seq<char>, at_slash: bool, task_name: Seq<char>) -> Seq<
    char,
> {
    if at_slash {
        temp_dir + "toktok"@ + "/"@ + task_name + "/"@
    } else {
        temp_dir + "/"@ + "toktok"@ + "/"@ + task_name + "/"@
    }
}

/// The directory that holds the log files of the task `task_name`, below
/// the directory for temporary files `temp_dir`.
pub open spec fn folder_text(temp_dir: Seq<char>, task_name: Seq<char>) -> Seq<char> {
    folder_given(temp_dir, path_ends_with(temp_dir, "/"@), task_name)
}

/// The name of the log file of the task `task_name` for the day `day`:
/// year, month and day as plain numbers, then the task, with hyphens
/// between.
pub open spec fn filename_text(task_name: Seq<char>, day: Date) -> Seq<char> {
    decimal_text(day.year as int) + "-"@ + decimal_text(day.month as int) + "-"@ + decimal_text(
        day.day as int,
    ) + "-"@ + task_name + ".log"@
}

/// The line that records `result` at the moment written as `stamp`.
pub open spec fn line_text(stamp: Seq<char>, result: CheckerResultView) -> Seq<char> {
    "["@ + stamp + "] "@ + result.status.spec_name() + " - "@ + result.message + "\n"@
}

/// What a task remembers about its log: whose it is, the directory it lives
/// in, and the day of the file it was opened with.
#[derive(Debug)]
pub struct TaskLogger {
    task_name: String,
    file_dir: String,
    file_date: Date,
}

/// A `TaskLogger` as plain values.
pub struct TaskLoggerView {
    pub task_name: Seq<char>,
    pub file_dir: Seq<char>,
    pub file_date: Date,
}

impl View for TaskLogger {
    type V = TaskLoggerView;

    closed spec fn view(&self) -> TaskLoggerView {
        TaskLoggerView {
            task_name: self.task_name@,
            file_dir: self.file_dir@,
            file_date: self.file_date,
        }
    }
}

/// What has to be written for one result: the line, and before it the file
/// to change to, where the day is no longer the one the log was opened on.
#[derive(Debug)]
pub struct LogWrite {
    pub reopen: Option<String>,
    pub line: String,
}

/// A `LogWrite` as plain values.
pub struct LogWriteView {
    pub reopen: Option<Seq<char>>,
    pub line: Seq<char>,
}

impl View for LogWrite {
    type V = LogWriteView;

    open spec fn view(&self) -> LogWriteView {
        LogWriteView {
            reopen: match self.reopen {
                Some(path) => Some(path@),
                None => None,
            },
            line: self.line@,
        }
    }
}

impl TaskLoggerView {
    /// The file the log is opened with.
    pub open spec fn file_path(self) -> Seq<char> {
        self.file_dir + filename_text(self.task_name, self.file_date)
    }

    /// What is written for `result` on the day `today`, at the moment
    /// written as `stamp`.
    pub open spec fn entry(self, result: CheckerResultView, today: Date, stamp: Seq<char>)
        -> LogWriteView {
        LogWriteView {
            reopen: if self.file_date != today {
                Some(self.file_dir + "/"@ + filename_text(self.task_name, today))
            } else {
                None
            },
            line: line_text(stamp, result),
        }
    }
}

impl TaskLogger {
    /// The log of the task `task_name`, opened on the day `today` in its
    /// directory below `temp_dir`.
    pub fn new(task_name: &str, temp_dir: &str, today: Date) -> (logger: Self)
        ensures
            logger@ == (TaskLoggerView {
                task_name: task_name@,
                file_dir: folder_text(temp_dir@, task_name@),
                file_date: today,
            }),
    {
        Self {
            task_name: String::from_str(task_name),
            file_dir: Self::folder(temp_dir, task_name),
            file_date: today,
        }
    }

    /// The log of the task `task_name`, opened on the day the system clock
    /// shows, in its directory below `temp_dir`.
    pub fn try_new(task_name: &str, temp_dir: &str) -> (logger: Self)
        ensures
            logger@.task_name == task_name@,
            logger@.file_dir == folder_text(temp_dir@, task_name@),
            -9999 <= logger@.file_date.year <= 9999,
            1 <= logger@.file_date.month <= 12,
            1 <= logger@.file_date.day <= 31,
    {
        Self::new(task_name, temp_dir, clock_today())
    }

    /// The directory that holds the log files of the task `task_name`.
    pub fn folder(temp_dir: &str, task_name: &str) -> (dir: String)
        ensures
            dir@ == folder_text(temp_dir@, task_name@),
    {
        Self::folder_below(temp_dir, ends_with_path(temp_dir, "/"), task_name)
    }

    /// The directory that holds the log files of the task `task_name`
    /// below `temp_dir`, where `at_slash` says whether that path ends with
    /// a slash of its own.
    pub fn folder_below(temp_dir: &str, at_slash: bool, task_name: &str) -> (dir: String)
        ensures
            dir@ == folder_given(temp_dir@, at_slash, task_name@),
    {
        if at_slash {
            String::from_str(temp_dir).concat("toktok").concat("/").concat(task_name).concat("/")
        } else {
            String::from_str(temp_dir).concat("/").concat("toktok").concat("/").concat(
                task_name,
            ).concat("/")
        }
    }

    /// The name of the log file of the task `task_name` for the day `day`.
    pub fn filename_for(task_name: &str, day: Date) -> (name: String)
        ensures
            name@ == filename_text(task_name@, day),
    {
        let year = decimal(day.year as i64);
        let month = decimal(day.month as i64);
        let date = decimal(day.day as i64);
        year.concat("-").concat(month.as_str()).concat("-").concat(date.as_str()).concat(
            "-",
        ).concat(task_name).concat(".log")
    }

    /// The name of the log file of the task `task_name` for the day the
    /// system clock shows.
    pub fn todays_filename(task_name: &str) -> (name: String)
        ensures
            exists|today: Date|
                {
                    &&& name@ == #[trigger] filename_text(task_name@, today)
                    &&& -9999 <= today.year <= 9999
                    &&& 1 <= today.month <= 12
                    &&& 1 <= today.day <= 31
                },
    {
        let today = clock_today();
        Self::filename_for(task_name, today)
    }

    /// The directory of this log.
    pub fn file_dir(&self) -> (dir: &str)
        ensures
            dir@ == self@.file_dir,
    {
        self.file_dir.as_str()
    }

    /// The file this log is opened with.
    pub fn file_path(&self) -> (path: String)
        ensures
            path@ == self@.file_path(),
    {
        let name = Self::filename_for(self.task_name.as_str(), self.file_date);
        String::from_str(self.file_dir.as_str()).concat(name.as_str())
    }

    /// What has to be written for `execution_result` on the day `today`, at
    /// the moment written as `stamp`. The log itself stays as it is.
    pub fn log_at(&self, execution_result: &CheckerResult, today: Date, stamp: &str) -> (write:
        LogWrite)
        ensures
            write@ == self@.entry(execution_result@, today, stamp@),
    {
        let reopen = if self.file_date.year != today.year || self.file_date.month != today.month
            || self.file_date.day != today.day {
            let name = Self::filename_for(self.task_name.as_str(), today);
            Some(String::from_str(self.file_dir.as_str()).concat("/").concat(name.as_str()))
        } else {
            None
        };
        let line = String::from_str("[").concat(stamp).concat("] ").concat(
            execution_result.status.name(),
        ).concat(" - ").concat(execution_result.message.as_str()).concat("\n");
        LogWrite { reopen, line }
    }

    /// What has to be written for `execution_result` now, by the system
    /// clock. The log itself stays as it is.
    pub fn log(&mut self, execution_result: &CheckerResult) -> (write: LogWrite)
        ensures
            *final(self) == *old(self),
            exists|today: Date, stamp: Seq<char>|
                write@ == #[trigger] old(self)@.entry(execution_result@, today, stamp),
    {
        let today = clock_today();
        let stamp = clock_stamp();
        let write = self.log_at(execution_result, today, stamp.as_str());
        assert(write@ == self@.entry(execution_result@, today, stamp@));
        write
    }
}

} // verus!
