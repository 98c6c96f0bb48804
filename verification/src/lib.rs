//! A job scheduling library.
//!
//! Schedules describe when a unit of work should next execute: once at an
//! instant, on a fixed recurring interval, on a cron calendar pattern, or at
//! a random instant within a range.  A job bundles one or more schedules with
//! a handler; a scheduler owns jobs, fires the due ones and advances their
//! schedules.

pub mod error;
pub mod job;
pub mod scheduler;
pub mod time;
pub mod types;

pub use error::Error as SchedulerError;
pub use job::{JobBuilder, JobExecutor, JobHandler};
pub use scheduler::{Scheduler, SchedulerRunner};
pub use time::{Instant, ScheduleTime, ScheduleTimeError, Span};
pub use types::{RandomSchedule, RecurringInterval, RecurringSchedule, Schedule, ScheduleType};
