//! The status/error channel: the single translation point between raw
//! embedding-interface result codes and the typed error taxonomy used by
//! every other component.

use vstd::prelude::*;
use vstd::string::StringExecFns;

verus! {

/// Result codes of the embedding interface, as a closed taxonomy.
///
/// `Ok` is the success code; every other variant classifies a failure.
#[derive(Clone, Copy, Debug, PartialEq, Eq, Structural)]
pub enum Status {
    Success,
    InvalidArgument,
    ObjectExpected,
    WrongTypeHandle,
    PendingException,
    QueueFull,
    Closed,
    GenericFailure,
    Unknown,
}

/// The raw code the embedding interface reports for a given status.
pub open spec fn spec_code_of(s: Status) -> u32 {
    match s {
        Status::Success => 0,
        Status::InvalidArgument => 1,
        Status::ObjectExpected => 2,
        Status::WrongTypeHandle => 3,
        Status::PendingException => 4,
        Status::QueueFull => 5,
        Status::Closed => 6,
        Status::GenericFailure => 7,
        Status::Unknown => 8,
    }
}

/// The status a raw embedding-interface code maps to; codes outside the
/// known range collapse to `Unknown`.
pub open spec fn spec_status_of(code: u32) -> Status {
    if code == 0 {
        Status::Success
    } else if code == 1 {
        Status::InvalidArgument
    } else if code == 2 {
        Status::ObjectExpected
    } else if code == 3 {
        Status::WrongTypeHandle
    } else if code == 4 {
        Status::PendingException
    } else if code == 5 {
        Status::QueueFull
    } else if code == 6 {
        Status::Closed
    } else if code == 7 {
        Status::GenericFailure
    } else {
        Status::Unknown
    }
}

impl Status {
    /// The raw code this status travels as over the embedding interface.
    pub fn code(self) -> (c: u32)
        ensures
            c == spec_code_of(self),
    {
        match self {
            Status::Success => 0,
            Status::InvalidArgument => 1,
            Status::ObjectExpected => 2,
            Status::WrongTypeHandle => 3,
            Status::PendingException => 4,
            Status::QueueFull => 5,
            Status::Closed => 6,
            Status::GenericFailure => 7,
            Status::Unknown => 8,
        }
    }

    /// The status a raw embedding-interface code denotes.
    pub fn from_code(code: u32) -> (s: Status)
        ensures
            s == spec_status_of(code),
    {
        if code == 0 {
            Status::Success
        } else if code == 1 {
            Status::InvalidArgument
        } else if code == 2 {
            Status::ObjectExpected
        } else if code == 3 {
            Status::WrongTypeHandle
        } else if code == 4 {
            Status::PendingException
        } else if code == 5 {
            Status::QueueFull
        } else if code == 6 {
            Status::Closed
        } else if code == 7 {
            Status::GenericFailure
        } else {
            Status::Unknown
        }
    }
}

/// Encoding a status as a raw code and mapping that code back yields the
/// same status: the channel loses nothing in either direction.
pub proof fn lemma_status_code_round_trip(s: Status)
    ensures
        spec_status_of(spec_code_of(s)) == s,
{
}

/// A typed error: a non-success status, a human-readable reason, and, when
/// the failure corresponds to a live thrown exception, the raw handle of
/// that exception (meaningful only on the engine thread).
#[derive(Debug)]
pub struct Error {
    pub status: Status,
    pub reason: String,
    pub exception: Option<usize>,
}

impl Error {
    /// An error value carrying no live exception handle.
    pub fn new(status: Status, reason: String) -> (e: Error)
        ensures
            e.status == status,
            e.reason@ == reason@,
            e.exception is None,
    {
        Error { status, reason, exception: None }
    }
}

/// Maps a raw embedding-interface result code to `Ok(())` exactly when the
/// code is the success code, and otherwise to an `Error` whose status is the
/// taxonomy entry for that code.
pub fn check_status(code: u32) -> (r: Result<(), Error>)
    ensures
        r is Ok <==> code == 0,
        r matches Err(e) ==> e.status == spec_status_of(code) && e.exception is None,
{
    if code == 0 {
        Ok(())
    } else {
        Err(Error::new(Status::from_code(code), String::from_str("embedding interface call failed")))
    }
}

} // verus!
