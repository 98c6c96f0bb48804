//! The library's error taxonomy.

use vstd::prelude::*;
use crate::time::{schedule_time_error_text, ScheduleTimeError};

verus! {

/// Everything a scheduling operation can fail with.
#[derive(Debug)]
pub enum Error {
    /// A schedule descriptor could not be resolved; carries a description.
    InvalidSchedule(String),
    /// No job with the given identity is known; carries the identity.
    JobNotFound(String),
    /// A handler ran and reported failure; carries the handler's message.
    ExecutionFailed(String),
    /// A job was registered, or asked to run, without a handler.
    HandlerNotBuilt,
    /// A job was registered with no schedules at all.
    MissingSchedule,
    /// A target instant could not be computed.
    TimeCalculationError,
}

/// The descriptive text of an `Error`.
pub open spec fn error_text(e: Error) -> Seq<char> {
    match e {
        Error::InvalidSchedule(msg) => "Invalid schedule: "@ + msg@,
        Error::JobNotFound(id) => "Job not found: "@ + id@,
        Error::ExecutionFailed(msg) => "Job execution failed: "@ + msg@,
        Error::HandlerNotBuilt => "Handler not built!"@,
        Error::MissingSchedule => "No schedule found!"@,
        Error::TimeCalculationError => "Error calculating target time"@,
    }
}

impl Error {
    /// The descriptive text of this error.
    pub fn message(&self) -> (r: String)
        ensures
            r@ == error_text(*self),
    {
        match self {
            Error::InvalidSchedule(msg) => String::from_str("Invalid schedule: ").concat(
                msg.as_str(),
            ),
            Error::JobNotFound(id) => String::from_str("Job not found: ").concat(id.as_str()),
            Error::ExecutionFailed(msg) => String::from_str("Job execution failed: ").concat(
                msg.as_str(),
            ),
            Error::HandlerNotBuilt => String::from_str("Handler not built!"),
            Error::MissingSchedule => String::from_str("No schedule found!"),
            Error::TimeCalculationError => String::from_str("Error calculating target time"),
        }
    }
}

impl Error {
    /// A schedule-time parse failure, turned into an invalid-schedule error
    /// that carries the parse error's text.
    pub fn from_schedule_time_error(err: ScheduleTimeError) -> (r: Error)
        ensures
            r matches Error::InvalidSchedule(msg) && msg@ == schedule_time_error_text(err),
    {
        Error::InvalidSchedule(err.message())
    }
}

} // verus!
