//! The byte sink behind the logger, and the errors the logger reports.

use vstd::prelude::*;

verus! {

/// The failure of a sink operation. The logger does not look into it.
#[derive(Clone, Copy, Debug, PartialEq, Eq, Structural)]
pub struct IoError;

/// What the logger reports to its callers.
#[derive(Clone, Copy, Debug, PartialEq, Eq, Structural)]
pub enum Error {
    /// The target of an attachment could not be created or opened.
    SinkUnavailable,
    /// The attached sink failed to write or to flush.
    IoFailure,
}

/// A destination for encoded bytes: a file, a socket, a buffer.
///
/// Nothing is assumed of an implementation. The logger owns the sink once it
/// is attached, hands it every byte in order, and reports each failure once,
/// without retrying.
pub trait Sink {
    /// Takes all of `bytes`, or fails.
    fn write(&mut self, bytes: &[u8]) -> Result<(), IoError>;

    /// Pushes what was taken so far through to its destination, or fails.
    fn flush(&mut self) -> Result<(), IoError>;
}

/// The report of a sink operation that ended with `outcome`.
pub fn surface(outcome: Result<(), IoError>) -> (report: Result<(), Error>)
    ensures
        outcome is Ok ==> report == Ok::<(), Error>(()),
        outcome is Err ==> report == Err::<(), Error>(Error::IoFailure),
{
    match outcome {
        Ok(()) => Ok(()),
        Err(_) => Err(Error::IoFailure),
    }
}

} // verus!
