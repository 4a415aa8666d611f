//! The failures that the library reports.
use vstd::prelude::*;

verus! {

/// A failure signalled by the operating system, kept as the last-error code
/// that the system reported for the failed call.
#[derive(Clone, Copy, Debug, PartialEq, Eq, Structural)]
pub struct OsError {
    pub code: u32,
}

/// Why no snapshot of the process identifiers could be taken.
#[derive(Clone, Copy, Debug, PartialEq, Eq, Structural)]
pub enum EnumError {
    /// The system refused or failed the query.
    Os(OsError),
    /// Even the largest buffer that the library asks for came back full, so
    /// no complete snapshot could be confirmed.
    TooMany,
}

/// Why the name of an opened process could not be resolved.
#[derive(Clone, Copy, Debug, PartialEq, Eq, Structural)]
pub enum NameError {
    /// The system refused or failed a query on the process.
    Os(OsError),
    /// Even the largest buffer that the library asks for came back full, so
    /// the name could not be told from a truncated prefix of it.
    TooLong,
    /// The system returned bytes that are not valid UTF-8.
    Decode,
}

} // verus!
