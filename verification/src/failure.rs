//! The ways in which a run can fail.

use vstd::prelude::*;

verus! {

/// Why a run failed. Every failure ends the run; nothing is tried again.
#[derive(Clone, Copy, Debug, PartialEq, Eq, Structural)]
pub enum Failure {
    /// The store could not be opened, created, read or written.
    StorageUnavailable,
    /// No record has the name that was looked up.
    NotFound,
    /// The text does not name a time zone.
    InvalidTimezone,
    /// The instant lies outside the years that a calendar date can express.
    TimeOutOfRange,
    /// The command line has neither one nor two arguments.
    BadArguments,
}

impl Failure {
    /// The text reported for a failure.
    pub open spec fn message_text(self) -> Seq<char> {
        match self {
            Failure::StorageUnavailable => "Err: Storage unavailable!"@,
            Failure::NotFound => "Err: No such name found!"@,
            Failure::InvalidTimezone => "Err: Invalid timezone!"@,
            Failure::TimeOutOfRange => "Err: Time out of range!"@,
            Failure::BadArguments => "Err: Wrong arguments passed!"@,
        }
    }

    /// The exit status of a run that failed in this way. It is never zero.
    pub open spec fn exit_status(self) -> int {
        match self {
            Failure::NotFound => 1,
            Failure::BadArguments => 2,
            Failure::StorageUnavailable => 101,
            Failure::InvalidTimezone => 101,
            Failure::TimeOutOfRange => 101,
        }
    }

    /// The text to report for this failure.
    pub fn message(&self) -> (text: &'static str)
        ensures
            text@ == self.message_text(),
    {
        match self {
            Failure::StorageUnavailable => "Err: Storage unavailable!",
            Failure::NotFound => "Err: No such name found!",
            Failure::InvalidTimezone => "Err: Invalid timezone!",
            Failure::TimeOutOfRange => "Err: Time out of range!",
            Failure::BadArguments => "Err: Wrong arguments passed!",
        }
    }

    /// The exit status to end the run with.
    pub fn exit_code(&self) -> (code: i32)
        ensures
            code == self.exit_status(),
            code != 0,
    {
        match self {
            Failure::NotFound => 1,
            Failure::BadArguments => 2,
            Failure::StorageUnavailable => 101,
            Failure::InvalidTimezone => 101,
            Failure::TimeOutOfRange => 101,
        }
    }
}

/// An outcome with its text, if it has one, taken as a sequence of
/// characters.
pub open spec fn shown(outcome: Result<String, Failure>) -> Result<Seq<char>, Failure> {
    match outcome {
        Ok(text) => Ok(text@),
        Err(failure) => Err(failure),
    }
}

} // verus!
