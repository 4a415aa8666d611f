//! Resolving the base name of a process's primary module: first the module
//! is found, then its name is read into a buffer that grows until the name
//! fits with room to spare.
use vstd::prelude::*;
use vstd::utf8::{decode_utf8, valid_utf8};
use crate::buffer::{grow, grown, tries_left};
use crate::error::{NameError, OsError};

verus! {

/// The capacity, in bytes, of the first buffer that a name is read into.
pub const INITIAL_NAME_CAPACITY: usize = 64;

/// The capacity, in bytes, of the largest buffer that a name is read into.
pub const MAX_NAME_CAPACITY: usize = 32768;

/// The request to list the modules of a process into a single slot, which
/// the system fills with the process's primary module.
#[derive(Clone, Copy, Debug, PartialEq, Eq, Structural)]
pub struct ModuleQuery {
    pub handle: usize,
}

/// What the system answered to a [`ModuleQuery`].
#[derive(Clone, Copy, Debug, PartialEq, Eq, Structural)]
pub struct ModulesReply {
    /// Whether the call reported success.
    pub succeeded: bool,
    /// The content of the slot after the call, as an address.
    pub module: usize,
    /// The calling thread's last-error code right after the call.
    pub last_error: u32,
}

/// The request to read the base name of `module` in the process behind
/// `handle` into a buffer of `capacity` bytes.
#[derive(Clone, Copy, Debug, PartialEq, Eq, Structural)]
pub struct NameQuery {
    pub handle: usize,
    pub module: usize,
    pub capacity: usize,
}

/// What the system answered to a [`NameQuery`].
#[derive(Debug, PartialEq, Eq)]
pub struct NameReply {
    /// The bytes that the system wrote; none when the call failed.
    pub bytes: Vec<u8>,
    /// The calling thread's last-error code right after the call.
    pub last_error: u32,
}

/// A [`NameReply`] with the bytes as a sequence.
pub ghost struct NameReplyModel {
    pub bytes: Seq<u8>,
    pub last_error: u32,
}

impl View for NameReply {
    type V = NameReplyModel;

    open spec fn view(&self) -> NameReplyModel {
        NameReplyModel { bytes: self.bytes@, last_error: self.last_error }
    }
}

/// What follows a [`NameReply`].
#[derive(Debug, PartialEq, Eq)]
pub enum NameStep {
    /// The buffer came back full: ask again with this larger one.
    Retry(NameQuery),
    /// The resolution is over.
    Done(Result<String, NameError>),
}

/// A [`NameStep`] with the name as a sequence of characters.
pub ghost enum NameStepModel {
    Retry(NameQuery),
    Done(Result<Seq<char>, NameError>),
}

/// The result of a resolution with the name as a sequence of characters.
pub open spec fn text_of(result: Result<String, NameError>) -> Result<Seq<char>, NameError> {
    match result {
        Ok(name) => Ok(name@),
        Err(error) => Err(error),
    }
}

impl View for NameStep {
    type V = NameStepModel;

    open spec fn view(&self) -> NameStepModel {
        match *self {
            NameStep::Retry(query) => NameStepModel::Retry(query),
            NameStep::Done(result) => NameStepModel::Done(text_of(result)),
        }
    }
}

/// What the bytes of a complete reply resolve to.
pub open spec fn decoded(bytes: Seq<u8>) -> Result<Seq<char>, NameError> {
    if valid_utf8(bytes) {
        Ok(decode_utf8(bytes))
    } else {
        Err(NameError::Decode)
    }
}

impl ModuleQuery {
    /// What follows `reply`: the first name query on the module found, or
    /// the system's error.
    pub open spec fn spec_advance(self, reply: ModulesReply) -> Result<NameQuery, NameError> {
        if reply.succeeded {
            Ok(
                NameQuery {
                    handle: self.handle,
                    module: reply.module,
                    capacity: INITIAL_NAME_CAPACITY,
                },
            )
        } else {
            Err(NameError::Os(OsError { code: reply.last_error }))
        }
    }

    /// Decides what follows the system's answer to this query. A failed
    /// call ends the resolution at once: module discovery is never retried.
    pub fn advance(self, reply: ModulesReply) -> (r: Result<NameQuery, NameError>)
        ensures
            r == self.spec_advance(reply),
    {
        if reply.succeeded {
            Ok(
                NameQuery {
                    handle: self.handle,
                    module: reply.module,
                    capacity: INITIAL_NAME_CAPACITY,
                },
            )
        } else {
            Err(NameError::Os(OsError { code: reply.last_error }))
        }
    }
}

impl NameQuery {
    /// What follows `reply`.
    ///
    /// No byte means that the call failed. A reply that fills the buffer
    /// may be a truncated prefix of the name, so it is never decoded: the
    /// query is repeated with a larger buffer, up to the largest. Only a
    /// reply that left room in the buffer is complete.
    pub open spec fn spec_advance(self, reply: NameReplyModel) -> NameStepModel {
        if reply.bytes.len() == 0 {
            NameStepModel::Done(Err(NameError::Os(OsError { code: reply.last_error })))
        } else if reply.bytes.len() < self.capacity {
            NameStepModel::Done(decoded(reply.bytes))
        } else if self.capacity < MAX_NAME_CAPACITY {
            NameStepModel::Retry(
                NameQuery {
                    handle: self.handle,
                    module: self.module,
                    capacity: grown(self.capacity, INITIAL_NAME_CAPACITY, MAX_NAME_CAPACITY),
                },
            )
        } else {
            NameStepModel::Done(Err(NameError::TooLong))
        }
    }

    /// Decides what follows the system's answer to this query.
    pub fn advance(self, reply: NameReply) -> (r: NameStep)
        ensures
            r@ == self.spec_advance(reply@),
    {
        let length: usize = reply.bytes.len();
        if length == 0 {
            NameStep::Done(Err(NameError::Os(OsError { code: reply.last_error })))
        } else if length < self.capacity {
            NameStep::Done(decode(reply.bytes))
        } else if self.capacity < MAX_NAME_CAPACITY {
            NameStep::Retry(
                NameQuery {
                    handle: self.handle,
                    module: self.module,
                    capacity: grow(self.capacity, INITIAL_NAME_CAPACITY, MAX_NAME_CAPACITY),
                },
            )
        } else {
            NameStep::Done(Err(NameError::TooLong))
        }
    }
}

/// Decodes the bytes of a complete reply as UTF-8 text.
pub fn decode(bytes: Vec<u8>) -> (r: Result<String, NameError>)
    ensures
        text_of(r) == decoded(bytes@),
{
    match String::from_utf8(bytes) {
        Ok(name) => Ok(name),
        Err(_) => Err(NameError::Decode),
    }
}

/// The error of `String::from_utf8`. Nothing is read from it.
#[verifier::external_type_specification]
#[verifier::external_body]
pub struct ExFromUtf8Error(std::string::FromUtf8Error);

/// `String::from_utf8` of the standard library. The contract claims what
/// the documentation of that function says: the conversion succeeds exactly
/// when the bytes are valid UTF-8, and the string then consists of the
/// characters that the bytes encode.
pub assume_specification[ String::from_utf8 ](vec: Vec<u8>) -> (r: Result<
    String,
    std::string::FromUtf8Error,
>)
    ensures
        r is Ok == valid_utf8(vec@),
        r is Ok ==> r->Ok_0@ == decode_utf8(vec@),
;

/// What a system on which the module's base name is `name`, and on which a
/// failed call leaves `last_error`, answers to a query with a buffer of
/// `capacity` bytes: the name, as far as it fits.
pub open spec fn written(name: Seq<u8>, last_error: u32, capacity: usize) -> NameReplyModel {
    NameReplyModel {
        bytes: if name.len() <= capacity {
            name
        } else {
            name.take(capacity as int)
        },
        last_error,
    }
}

/// The result of a resolution that starts with `query`, on a system on which
/// the module's base name is `name` and a failed call leaves `last_error`.
pub open spec fn resolved(query: NameQuery, name: Seq<u8>, last_error: u32) -> Result<
    Seq<char>,
    NameError,
>
    decreases MAX_NAME_CAPACITY - query.capacity,
{
    match query.spec_advance(written(name, last_error, query.capacity)) {
        NameStepModel::Retry(next) => resolved(next, name, last_error),
        NameStepModel::Done(result) => result,
    }
}

/// Growing the buffer never truncates a name: whatever the capacity of the
/// first buffer, a name shorter than the largest buffer is resolved from all
/// of its bytes. An empty name is the system's way to report a failure, and
/// a name that fills even the largest buffer that is asked for is refused,
/// not cut.
pub proof fn lemma_name_is_never_truncated(query: NameQuery, name: Seq<u8>, last_error: u32)
    requires
        query.capacity > 0,
    ensures
        name.len() == 0 ==> resolved(query, name, last_error) == Err::<Seq<char>, NameError>(
            NameError::Os(OsError { code: last_error }),
        ),
        0 < name.len() < MAX_NAME_CAPACITY ==> resolved(query, name, last_error) == decoded(name),
        name.len() >= MAX_NAME_CAPACITY >= query.capacity ==> resolved(query, name, last_error)
            == Err::<Seq<char>, NameError>(NameError::TooLong),
    decreases MAX_NAME_CAPACITY - query.capacity,
{
    let reply = written(name, last_error, query.capacity);
    if let NameStepModel::Retry(next) = query.spec_advance(reply) {
        lemma_name_is_never_truncated(next, name, last_error);
    }
}

/// The greatest number of name queries that a resolution can still put,
/// the next one with a buffer of `capacity` bytes.
pub open spec fn reads_left(capacity: usize) -> nat {
    tries_left(capacity, INITIAL_NAME_CAPACITY, MAX_NAME_CAPACITY)
}

/// A resolution that begins with the first buffer puts at most ten name
/// queries.
pub proof fn lemma_reads_of_first_query()
    ensures
        reads_left(INITIAL_NAME_CAPACITY) == 10,
{
    reveal_with_fuel(tries_left, 11);
}

} // verus!
