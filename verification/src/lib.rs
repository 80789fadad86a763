//! A scheduler for recurring health checks. Each task is a named check with
//! an interval; the tasks wait in a queue ordered by the instant they are
//! next due, leave it when the clock reaches that instant, and come back
//! one interval after their check has answered. Results that are no
//! success go to the notifiers.
//!
//! This crate decides. But for the system clock it reads nothing, and it
//! writes nothing: the caller sends the requests, writes the logs and the
//! mails, and runs the stages on its threads.

pub mod checker;
pub mod executor;
pub mod notification;
pub mod parser;
pub mod protocol;
pub mod queue;
pub mod scheduler;
pub mod task;
pub mod task_info;
pub mod task_logger;
pub mod task_order;
pub mod text;
pub mod time;
