//! What becomes of one path: the decisions taken after its mode is read and
//! after the new mode is written.

use vstd::prelude::*;
use crate::mode::{in_scope, is_in_scope, plan_update, planned_mode};

verus! {

/// Why a filesystem call on a path failed.
#[derive(Clone, Copy, Debug, PartialEq, Eq)]
pub enum IoFailure {
    /// The path does not exist (any longer).
    NotFound,
    /// Any other cause: permission denied, an I/O fault.
    Other,
}

/// Why writing a mode back failed.
#[derive(Clone, Copy, Debug, PartialEq, Eq)]
pub enum WriteFailure {
    /// The filesystem call failed.
    Io(IoFailure),
    /// The mode value was rejected as malformed.
    InvalidMode,
}

/// How the processing of one path ended.
#[derive(Clone, Copy, Debug, PartialEq, Eq)]
pub enum Outcome {
    /// Neither a directory nor a regular file: left untouched.
    Skipped,
    /// Already had every bit the policy asks for: nothing written.
    Unchanged,
    /// The given mode was written.
    Updated(u32),
    /// The path disappeared before its mode could be read or written.
    Vanished,
    /// The mode could not be read.
    ReadError,
    /// The mode could not be written.
    WriteError,
    /// The mode value was rejected as malformed.
    InvalidMode,
}

/// What follows the read of a path's mode.
#[derive(Clone, Copy, Debug, PartialEq, Eq)]
pub enum Step {
    /// The path is done with.
    Done(Outcome),
    /// The given mode is to be written to the path.
    Write(u32),
}

/// Whether a failure deserves a report: a path that no longer exists is
/// expected (a temporary file) and is not reported.
pub fn should_log_io_error(err: &IoFailure) -> (r: bool)
    ensures
        r == (*err != IoFailure::NotFound),
{
    match err {
        IoFailure::NotFound => false,
        IoFailure::Other => true,
    }
}

/// The step that follows reading a path's mode with result `read`.
pub open spec fn read_step(read: Result<u32, IoFailure>) -> Step {
    match read {
        Err(IoFailure::NotFound) => Step::Done(Outcome::Vanished),
        Err(IoFailure::Other) => Step::Done(Outcome::ReadError),
        Ok(mode) => match planned_mode(mode) {
            Some(m) => Step::Write(m),
            None => if in_scope(mode) {
                Step::Done(Outcome::Unchanged)
            } else {
                Step::Done(Outcome::Skipped)
            },
        },
    }
}

/// The outcome of writing `mode` back to a path with result `written`.
pub open spec fn write_outcome(mode: u32, written: Result<(), WriteFailure>) -> Outcome {
    match written {
        Ok(()) => Outcome::Updated(mode),
        Err(WriteFailure::Io(IoFailure::NotFound)) => Outcome::Vanished,
        Err(WriteFailure::Io(IoFailure::Other)) => Outcome::WriteError,
        Err(WriteFailure::InvalidMode) => Outcome::InvalidMode,
    }
}

/// Decides what to do once the mode of a path has been read (or failed to be).
pub fn after_read(read: Result<u32, IoFailure>) -> (r: Step)
    ensures
        r == read_step(read),
{
    match read {
        Ok(mode) => match plan_update(mode) {
            Some(m) => Step::Write(m),
            None => if is_in_scope(mode) {
                Step::Done(Outcome::Unchanged)
            } else {
                Step::Done(Outcome::Skipped)
            },
        },
        Err(err) => if should_log_io_error(&err) {
            Step::Done(Outcome::ReadError)
        } else {
            Step::Done(Outcome::Vanished)
        },
    }
}

/// Classifies the result of writing `mode` back to a path.
pub fn after_write(mode: u32, written: Result<(), WriteFailure>) -> (r: Outcome)
    ensures
        r == write_outcome(mode, written),
{
    match written {
        Ok(()) => Outcome::Updated(mode),
        Err(WriteFailure::Io(err)) => if should_log_io_error(&err) {
            Outcome::WriteError
        } else {
            Outcome::Vanished
        },
        Err(WriteFailure::InvalidMode) => Outcome::InvalidMode,
    }
}

} // verus!
