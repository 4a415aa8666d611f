//! Taking a snapshot of the identifiers of all running processes. The
//! system writes them into a buffer of fixed capacity and gives no sign of
//! having left some out, so a buffer that comes back full is never trusted.
use vstd::prelude::*;
use crate::buffer::{grow, grown, tries_left};
use crate::error::{EnumError, OsError};

verus! {

/// The capacity, in identifiers, of the first buffer that is asked for.
pub const INITIAL_ID_CAPACITY: usize = 1024;

/// The capacity, in identifiers, of the largest buffer that is asked for.
pub const MAX_ID_CAPACITY: usize = 1048576;

/// The request to list the identifiers of the running processes into a
/// buffer of `capacity` identifiers.
#[derive(Clone, Copy, Debug, PartialEq, Eq, Structural)]
pub struct Enumerator {
    pub capacity: usize,
}

/// What the system answered to an [`Enumerator`].
#[derive(Debug, PartialEq, Eq)]
pub struct IdsReply {
    /// Whether the call reported success.
    pub succeeded: bool,
    /// The identifiers that the system wrote.
    pub ids: Vec<u32>,
    /// The calling thread's last-error code right after the call.
    pub last_error: u32,
}

/// An [`IdsReply`] with the identifiers as a sequence.
pub ghost struct IdsReplyModel {
    pub succeeded: bool,
    pub ids: Seq<u32>,
    pub last_error: u32,
}

impl View for IdsReply {
    type V = IdsReplyModel;

    open spec fn view(&self) -> IdsReplyModel {
        IdsReplyModel { succeeded: self.succeeded, ids: self.ids@, last_error: self.last_error }
    }
}

/// What follows an [`IdsReply`].
#[derive(Debug, PartialEq, Eq)]
pub enum Enumeration {
    /// The buffer came back full: ask again with this larger one.
    Retry(Enumerator),
    /// The snapshot is complete.
    Done(Vec<u32>),
    /// No snapshot could be taken.
    Failed(EnumError),
}

/// An [`Enumeration`] with the identifiers as a sequence.
pub ghost enum EnumerationModel {
    Retry(Enumerator),
    Done(Seq<u32>),
    Failed(EnumError),
}

impl View for Enumeration {
    type V = EnumerationModel;

    open spec fn view(&self) -> EnumerationModel {
        match *self {
            Enumeration::Retry(next) => EnumerationModel::Retry(next),
            Enumeration::Done(ids) => EnumerationModel::Done(ids@),
            Enumeration::Failed(error) => EnumerationModel::Failed(error),
        }
    }
}

impl Enumerator {
    /// The first request of an enumeration.
    pub fn new() -> (r: Enumerator)
        ensures
            r == (Enumerator { capacity: INITIAL_ID_CAPACITY }),
    {
        Enumerator { capacity: INITIAL_ID_CAPACITY }
    }

    /// What follows `reply`.
    ///
    /// A failed call ends the enumeration with the system's error. A reply
    /// that fills the buffer may have left identifiers out, so it is never
    /// returned: the request is repeated with a larger buffer, up to the
    /// largest. Only a reply that left room in the buffer is complete.
    pub open spec fn spec_advance(self, reply: IdsReplyModel) -> EnumerationModel {
        if !reply.succeeded {
            EnumerationModel::Failed(EnumError::Os(OsError { code: reply.last_error }))
        } else if reply.ids.len() < self.capacity {
            EnumerationModel::Done(reply.ids)
        } else if self.capacity < MAX_ID_CAPACITY {
            EnumerationModel::Retry(
                Enumerator {
                    capacity: grown(self.capacity, INITIAL_ID_CAPACITY, MAX_ID_CAPACITY),
                },
            )
        } else {
            EnumerationModel::Failed(EnumError::TooMany)
        }
    }

    /// Decides what follows the system's answer to this request.
    pub fn advance(self, reply: IdsReply) -> (r: Enumeration)
        ensures
            r@ == self.spec_advance(reply@),
    {
        if !reply.succeeded {
            Enumeration::Failed(EnumError::Os(OsError { code: reply.last_error }))
        } else if reply.ids.len() < self.capacity {
            Enumeration::Done(reply.ids)
        } else if self.capacity < MAX_ID_CAPACITY {
            Enumeration::Retry(
                Enumerator {
                    capacity: grow(self.capacity, INITIAL_ID_CAPACITY, MAX_ID_CAPACITY),
                },
            )
        } else {
            Enumeration::Failed(EnumError::TooMany)
        }
    }
}

/// How an enumeration that starts with `request` stands after `replies`,
/// the system's answers to its requests in order: still asking, with the
/// next request, or over. Answers after its end are not read.
pub open spec fn after(request: Enumerator, replies: Seq<IdsReplyModel>) -> EnumerationModel
    decreases replies.len(),
{
    if replies.len() == 0 {
        EnumerationModel::Retry(request)
    } else {
        match request.spec_advance(replies[0]) {
            EnumerationModel::Retry(next) => after(next, replies.drop_first()),
            over => over,
        }
    }
}

/// The buffer does not grow without end: whatever the system answers, an
/// enumeration is over after at most eleven requests.
pub proof fn lemma_enumeration_ends(replies: Seq<IdsReplyModel>)
    requires
        replies.len() >= 11,
    ensures
        !(after(Enumerator { capacity: INITIAL_ID_CAPACITY }, replies) is Retry),
{
    reveal_with_fuel(tries_left, 12);
    lemma_ends_within_tries(Enumerator { capacity: INITIAL_ID_CAPACITY }, replies);
}

/// An enumeration is over once it has had as many answers as it had tries
/// left.
proof fn lemma_ends_within_tries(request: Enumerator, replies: Seq<IdsReplyModel>)
    requires
        replies.len() >= tries_left(request.capacity, INITIAL_ID_CAPACITY, MAX_ID_CAPACITY),
    ensures
        !(after(request, replies) is Retry),
    decreases replies.len(),
{
    if let EnumerationModel::Retry(next) = request.spec_advance(replies[0]) {
        lemma_ends_within_tries(next, replies.drop_first());
    }
}

/// What a system that answers every request, and on which the processes
/// `running` exist, answers to a request with a buffer of `capacity`
/// identifiers: the identifiers, as far as they fit.
pub open spec fn listed(running: Seq<u32>, capacity: usize) -> IdsReplyModel {
    IdsReplyModel {
        succeeded: true,
        ids: if running.len() <= capacity {
            running
        } else {
            running.take(capacity as int)
        },
        last_error: 0,
    }
}

/// The result of an enumeration that starts with `request`, on a system
/// that answers as [`listed`] says.
pub open spec fn snapshot(request: Enumerator, running: Seq<u32>) -> Result<Seq<u32>, EnumError>
    decreases MAX_ID_CAPACITY - request.capacity,
{
    match request.spec_advance(listed(running, request.capacity)) {
        EnumerationModel::Retry(next) => snapshot(next, running),
        EnumerationModel::Done(ids) => Ok(ids),
        EnumerationModel::Failed(error) => Err(error),
    }
}

/// An enumeration never truncates: whatever the capacity of the first
/// buffer, fewer processes than the largest buffer holds are all returned,
/// in the order in which the system lists them. More processes than that
/// are refused, not cut.
pub proof fn lemma_snapshot_is_complete(request: Enumerator, running: Seq<u32>)
    ensures
        running.len() < MAX_ID_CAPACITY ==> snapshot(request, running) == Ok::<
            Seq<u32>,
            EnumError,
        >(running),
        running.len() >= MAX_ID_CAPACITY >= request.capacity ==> snapshot(request, running)
            == Err::<Seq<u32>, EnumError>(EnumError::TooMany),
    decreases MAX_ID_CAPACITY - request.capacity,
{
    let reply = listed(running, request.capacity);
    if let EnumerationModel::Retry(next) = request.spec_advance(reply) {
        lemma_snapshot_is_complete(next, running);
    }
}

/// Two enumerations of an unchanged system return the same set of
/// identifiers, in whatever order the system lists the processes each time.
pub proof fn lemma_snapshot_is_repeatable(first: Seq<u32>, second: Seq<u32>)
    requires
        first.to_set() == second.to_set(),
        first.len() < MAX_ID_CAPACITY,
        second.len() < MAX_ID_CAPACITY,
    ensures
        snapshot(Enumerator { capacity: INITIAL_ID_CAPACITY }, first) is Ok,
        snapshot(Enumerator { capacity: INITIAL_ID_CAPACITY }, second) is Ok,
        snapshot(Enumerator { capacity: INITIAL_ID_CAPACITY }, first)->Ok_0.to_set() == snapshot(
            Enumerator { capacity: INITIAL_ID_CAPACITY },
            second,
        )->Ok_0.to_set(),
{
    lemma_snapshot_is_complete(Enumerator { capacity: INITIAL_ID_CAPACITY }, first);
    lemma_snapshot_is_complete(Enumerator { capacity: INITIAL_ID_CAPACITY }, second);
}

} // verus!
