//! The unit of scheduling: a check bound to its schedule and its log.

use vstd::prelude::*;
use crate::checker::structs::CheckerResult;
use crate::checker::Checker;
use crate::task_info::TaskInfo;
use crate::task_logger::{LogWrite, TaskLogger};
use crate::time::{clock_now, Date, Interval, Timestamp, DURATION_LIMIT};

verus! {

/// A named, recurring check. Tasks are ordered by the instant they are
/// next due; nothing else takes part in the order.
#[derive(Debug)]
pub struct Task {
    info: TaskInfo,
    checker: Checker,
    logger: TaskLogger,
}

impl Task {
    /// The schedule of the task.
    pub closed spec fn info(self) -> TaskInfo {
        self.info
    }

    /// The check the task runs.
    pub closed spec fn spec_checker(self) -> Checker {
        self.checker
    }

    /// The log state of the task.
    pub closed spec fn spec_logger(self) -> TaskLogger {
        self.logger
    }

    /// The name that identifies the task.
    pub open spec fn id(self) -> Seq<char> {
        self.info().name@
    }

    /// The instant the task is next due, in nanoseconds.
    pub open spec fn due(self) -> int {
        self.info().next_execution_at@
    }

    /// The task once it has been marked as started at `now`: nothing else
    /// changes.
    pub closed spec fn started_at(self, now: Timestamp) -> Task {
        Task {
            info: TaskInfo {
                name: self.info.name,
                interval: self.info.interval,
                last_execution_at: now,
                next_execution_at: self.info.next_execution_at,
            },
            checker: self.checker,
            logger: self.logger,
        }
    }

    /// The task once it has been rescheduled at `now`: due one interval
    /// later, nothing else changes.
    pub closed spec fn rescheduled_at(self, now: Timestamp) -> Task {
        Task {
            info: TaskInfo {
                name: self.info.name,
                interval: self.info.interval,
                last_execution_at: self.info.last_execution_at,
                next_execution_at: now.spec_plus(self.info.interval),
            },
            checker: self.checker,
            logger: self.logger,
        }
    }

    /// What starting a task changes and what it keeps.
    pub proof fn lemma_started_at(self, now: Timestamp)
        ensures
            self.started_at(now).info().name == self.info().name,
            self.started_at(now).info().interval == self.info().interval,
            self.started_at(now).info().last_execution_at == now,
            self.started_at(now).info().next_execution_at == self.info().next_execution_at,
            self.started_at(now).spec_checker() == self.spec_checker(),
            self.started_at(now).spec_logger() == self.spec_logger(),
            self.started_at(now).id() == self.id(),
            self.started_at(now).due() == self.due(),
    {
    }

    /// What rescheduling a task changes and what it keeps.
    pub proof fn lemma_rescheduled_at(self, now: Timestamp)
        ensures
            self.rescheduled_at(now).info().name == self.info().name,
            self.rescheduled_at(now).info().interval == self.info().interval,
            self.rescheduled_at(now).info().last_execution_at == self.info().last_execution_at,
            self.rescheduled_at(now).info().next_execution_at == now.spec_plus(
                self.info().interval,
            ),
            self.rescheduled_at(now).spec_checker() == self.spec_checker(),
            self.rescheduled_at(now).spec_logger() == self.spec_logger(),
            self.rescheduled_at(now).id() == self.id(),
    {
    }

    /// A task that runs `checker` on the schedule `info` and logs through
    /// `logger`.
    pub fn new(info: TaskInfo, checker: Checker, logger: TaskLogger) -> (task: Self)
        ensures
            task.info() == info,
            task.spec_checker() == checker,
            task.spec_logger() == logger,
    {
        Self { info, checker, logger }
    }

    /// The name of the task.
    pub fn name(&self) -> (name: String)
        ensures
            name@ == self.id(),
    {
        self.info.name.clone()
    }

    /// The instant the task is next due.
    pub fn next_execution_at(&self) -> (due: &Timestamp)
        ensures
            due@ == self.due(),
            *due == self.info().next_execution_at,
    {
        &self.info.next_execution_at
    }

    /// The instant the task was last started.
    pub fn last_execution_at(&self) -> (last: &Timestamp)
        ensures
            *last == self.info().last_execution_at,
    {
        &self.info.last_execution_at
    }

    /// The time between two executions of the task.
    pub fn interval(&self) -> (interval: Interval)
        ensures
            interval == self.info().interval,
    {
        self.info.interval
    }

    /// The check the task runs.
    pub fn checker(&self) -> (checker: &Checker)
        ensures
            *checker == self.spec_checker(),
    {
        &self.checker
    }

    /// Marks the task as started at `now`.
    pub fn start_at(&mut self, now: Timestamp)
        ensures
            *final(self) == old(self).started_at(now),
    {
        self.info.last_execution_at = now;
    }

    /// Makes the task due one interval after `now`.
    pub fn reschedule_at(&mut self, now: Timestamp)
        requires
            now@ + old(self).info().interval@ <= i128::MAX,
        ensures
            *final(self) == old(self).rescheduled_at(now),
            final(self).due() == now@ + old(self).info().interval@,
    {
        self.info.next_execution_at = now.plus(self.info.interval);
    }

    /// The log state of the task.
    pub fn logger(&self) -> (logger: &TaskLogger)
        ensures
            *logger == self.spec_logger(),
    {
        &self.logger
    }

    /// What has to be written to the log of the task for `exec_result` on
    /// the day `today`, at the moment written as `stamp`. The task stays as
    /// it is.
    pub fn log_at(&self, exec_result: &CheckerResult, today: Date, stamp: &str) -> (write:
        LogWrite)
        ensures
            write@ == self.spec_logger()@.entry(exec_result@, today, stamp@),
    {
        self.logger.log_at(exec_result, today, stamp)
    }

    /// What has to be written to the log of the task for `exec_result`
    /// now, by the system clock. The task stays as it is.
    pub fn log(&mut self, exec_result: &CheckerResult) -> (write: LogWrite)
        ensures
            *final(self) == *old(self),
            exists|today: Date, stamp: Seq<char>|
                write@ == #[trigger] old(self).spec_logger()@.entry(exec_result@, today, stamp),
    {
        let ghost logger = self.logger@;
        let write = self.logger.log(exec_result);
        proof {
            let (today, stamp) = choose|today: Date, stamp: Seq<char>|
                write@ == #[trigger] logger.entry(exec_result@, today, stamp);
            assert(write@ == old(self).spec_logger()@.entry(exec_result@, today, stamp));
        }
        write
    }

    /// Marks the task as started at the instant the system clock shows.
    pub fn set_last_execution_at(&mut self)
        ensures
            *final(self) == old(self).started_at(final(self).info().last_execution_at),
            -DURATION_LIMIT <= final(self).info().last_execution_at@ <= DURATION_LIMIT,
    {
        let now = clock_now();
        self.start_at(now);
    }

    /// Makes the task due one interval after the instant the system clock
    /// shows.
    pub fn set_next_execution_at(&mut self)
        ensures
            exists|now: Timestamp|
                -DURATION_LIMIT <= now@ <= DURATION_LIMIT && *final(self)
                    == #[trigger] old(self).rescheduled_at(now) && final(self).due() == now@
                    + old(self).info().interval@,
    {
        let now = clock_now();
        // an interval is never more than `INTERVAL_MAX`, so the sum can be
        // counted
        let _ = self.info.interval.as_nanos();
        self.reschedule_at(now);
    }
}

} // verus!
