//! The decision core of a process-name lister for Windows hosts.
//!
//! The crate performs no system call. Every operating-system query is
//! described by a plain request value, carried out by the embedding program,
//! and answered with a plain reply value; what to do with a reply is decided
//! here, and each decision is proved against its contract.
pub mod buffer;
pub mod error;
pub mod lookup;
pub mod name;
pub mod process;
pub mod report;
pub mod snapshot;
