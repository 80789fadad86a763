//! The end of one execution: where the result of a check goes and what
//! becomes of the task.

use vstd::prelude::*;
use crate::checker::structs::{CheckerResult, CheckerStatus};
use crate::task::Task;
use crate::task_logger::LogWrite;
use crate::time::Date;

verus! {

/// What an execution hands on when its check has answered: what goes into
/// the log of the task, the result, if the notifiers have to hear of it,
/// and the task, which goes back to be rescheduled.
#[derive(Debug)]
pub struct Completion {
    pub log: LogWrite,
    pub notification: Option<CheckerResult>,
    pub task: Task,
}

/// Where a result goes: to the notifiers unless the check succeeded.
pub open spec fn routed(result: CheckerResult) -> Option<CheckerResult> {
    if result.status != CheckerStatus::Success {
        Some(result)
    } else {
        None
    }
}

/// Ends the execution of `task` with `checker_result`, on the day `today`
/// at the moment written as `stamp`. The result is logged whatever it is;
/// the task is handed on as it is, whatever the result; the result is
/// handed on only when it is not a success.
pub fn execute_check_at(task: Task, checker_result: CheckerResult, today: Date, stamp: &str) -> (done:
    Completion)
    ensures
        done.log@ == task.spec_logger()@.entry(checker_result@, today, stamp@),
        done.task == task,
        done.notification == routed(checker_result),
{
    let log = task.log_at(&checker_result, today, stamp);
    if checker_result.needs_notification() {
        Completion { log, notification: Some(checker_result), task }
    } else {
        Completion { log, notification: None, task }
    }
}

/// Ends the execution of `task` with `checker_result`, now by the system
/// clock. The result is logged whatever it is; the task is handed on as it
/// is, whatever the result; the result is handed on only when it is not a
/// success.
pub fn execute_check(task: Task, checker_result: CheckerResult) -> (done: Completion)
    ensures
        exists|today: Date, stamp: Seq<char>|
            done.log@ == #[trigger] task.spec_logger()@.entry(checker_result@, today, stamp),
        done.task == task,
        done.notification == routed(checker_result),
{
    let mut task = task;
    let log = task.log(&checker_result);
    if checker_result.needs_notification() {
        Completion { log, notification: Some(checker_result), task }
    } else {
        Completion { log, notification: None, task }
    }
}

} // verus!
