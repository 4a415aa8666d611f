//! The lookup as a transition system over plain values, on which the
//! contracts of the executable states and the laws of the lookup are stated.
use vstd::prelude::*;
use crate::error::{NameError, OsError};
use crate::lookup::Request;
use crate::name::{
    reads_left,
    written,
    ModuleQuery,
    ModulesReply,
    NameQuery,
    NameReplyModel,
    NameStepModel,
    INITIAL_NAME_CAPACITY,
};
use crate::process::{CloseRequest, OpenReply, OpenRequest, QUERY_ACCESS};
use crate::report::OutcomeModel;

verus! {

/// What the system would answer, at one moment, to each kind of request
/// that has an answer.
pub ghost struct Host {
    pub open: OpenReply,
    pub modules: ModulesReply,
    pub name: NameReplyModel,
}

/// The state of a lookup, with names as sequences of characters.
pub ghost enum LookupModel {
    /// The process is to be opened.
    Opening { pid: u32 },
    /// The process is open; its primary module is to be found.
    Finding { pid: u32, handle: usize },
    /// The module is known; its name is to be read. The handle is the one
    /// in the query.
    Reading { pid: u32, query: NameQuery },
    /// The resolution is over; the handle is to be released.
    Closing { pid: u32, handle: usize, result: Result<Seq<char>, NameError> },
    /// Nothing is left to do.
    Done { outcome: OutcomeModel },
}

impl LookupModel {
    /// The state in which the lookup of `pid` begins.
    pub open spec fn start(pid: u32) -> LookupModel {
        LookupModel::Opening { pid }
    }

    /// The identifier that is looked up.
    pub open spec fn pid(self) -> u32 {
        match self {
            LookupModel::Opening { pid } => pid,
            LookupModel::Finding { pid, .. } => pid,
            LookupModel::Reading { pid, .. } => pid,
            LookupModel::Closing { pid, .. } => pid,
            LookupModel::Done { outcome } => outcome.pid(),
        }
    }

    /// The handle that the lookup owns, if it owns one.
    pub open spec fn held(self) -> Option<usize> {
        match self {
            LookupModel::Opening { .. } => None,
            LookupModel::Finding { handle, .. } => Some(handle),
            LookupModel::Reading { query, .. } => Some(query.handle),
            LookupModel::Closing { handle, .. } => Some(handle),
            LookupModel::Done { .. } => None,
        }
    }

    /// The request that the state puts to the system.
    pub open spec fn request(self) -> Option<Request> {
        match self {
            LookupModel::Opening { pid } => Some(
                Request::Open(OpenRequest { pid, access: QUERY_ACCESS, inherit: false }),
            ),
            LookupModel::Finding { handle, .. } => Some(Request::Modules(ModuleQuery { handle })),
            LookupModel::Reading { query, .. } => Some(Request::Name(query)),
            LookupModel::Closing { handle, .. } => Some(Request::Close(CloseRequest { handle })),
            LookupModel::Done { .. } => None,
        }
    }

    /// The state after the answer to the request to open: the process is
    /// held, or the lookup is over with the system's error.
    pub open spec fn opened(self, reply: OpenReply) -> LookupModel
        recommends
            self is Opening,
    {
        if reply.handle != 0 {
            LookupModel::Finding { pid: self.pid(), handle: reply.handle }
        } else {
            LookupModel::Done {
                outcome: OutcomeModel::OpenFailed {
                    pid: self.pid(),
                    error: OsError { code: reply.last_error },
                },
            }
        }
    }

    /// The state after the answer to the module query: the name is read
    /// next, or the resolution has failed and the handle is released.
    pub open spec fn found(self, reply: ModulesReply) -> LookupModel
        recommends
            self is Finding,
    {
        match (ModuleQuery { handle: self.held()->Some_0 }).spec_advance(reply) {
            Ok(query) => LookupModel::Reading { pid: self.pid(), query },
            Err(error) => LookupModel::Closing {
                pid: self.pid(),
                handle: self.held()->Some_0,
                result: Err(error),
            },
        }
    }

    /// The state after the answer to the name query: the name is read
    /// again into a larger buffer, or the resolution is over and the handle
    /// is released.
    pub open spec fn read(self, reply: NameReplyModel) -> LookupModel
        recommends
            self is Reading,
    {
        match self->query.spec_advance(reply) {
            NameStepModel::Retry(next) => LookupModel::Reading { pid: self.pid(), query: next },
            NameStepModel::Done(result) => LookupModel::Closing {
                pid: self.pid(),
                handle: self.held()->Some_0,
                result,
            },
        }
    }

    /// The state of a lookup of `pid` that held its process and is over:
    /// it reports the name, or the reason why there is none.
    pub open spec fn finished(pid: u32, result: Result<Seq<char>, NameError>) -> LookupModel {
        LookupModel::Done {
            outcome: match result {
                Ok(name) => OutcomeModel::Named { pid, name },
                Err(error) => OutcomeModel::NameFailed { pid, error },
            },
        }
    }

    /// The state after the release of the handle: the lookup is over.
    pub open spec fn released(self) -> LookupModel
        recommends
            self is Closing,
    {
        LookupModel::finished(self.pid(), self->result)
    }

    /// The state after the system has answered the state's request as
    /// `host` says.
    pub open spec fn step(self, host: Host) -> LookupModel {
        match self {
            LookupModel::Opening { .. } => self.opened(host.open),
            LookupModel::Finding { .. } => self.found(host.modules),
            LookupModel::Reading { .. } => self.read(host.name),
            LookupModel::Closing { .. } => self.released(),
            LookupModel::Done { .. } => self,
        }
    }

    /// The state after as many steps as `hosts` has entries, the system
    /// answering the request of each step as the entry says.
    pub open spec fn run(self, hosts: Seq<Host>) -> LookupModel
        decreases hosts.len(),
    {
        if hosts.len() == 0 {
            self
        } else {
            self.step(hosts[0]).run(hosts.drop_first())
        }
    }

    /// The requests that are put to the system on that run, in order.
    pub open spec fn requests(self, hosts: Seq<Host>) -> Seq<Request>
        decreases hosts.len(),
    {
        if hosts.len() == 0 || self is Done {
            seq![]
        } else {
            seq![self.request()->Some_0] + self.step(hosts[0]).requests(hosts.drop_first())
        }
    }

    /// The greatest number of requests that the lookup can still put.
    pub open spec fn turns_left(self) -> nat {
        match self {
            LookupModel::Opening { .. } => 3 + reads_left(INITIAL_NAME_CAPACITY),
            LookupModel::Finding { .. } => 2 + reads_left(INITIAL_NAME_CAPACITY),
            LookupModel::Reading { query, .. } => 1 + reads_left(query.capacity),
            LookupModel::Closing { .. } => 1,
            LookupModel::Done { .. } => 0,
        }
    }
}

/// A process as the system presents it to a caller that it lets open and
/// query the process.
pub ghost struct Target {
    /// The handle that opening the process returns.
    pub handle: usize,
    /// The primary module of the process.
    pub module: usize,
    /// The bytes of the base name of that module.
    pub name: Seq<u8>,
    /// The last-error code that a failed call leaves.
    pub last_error: u32,
}

impl Target {
    /// What the system answers to the request of `state`: it opens the
    /// process, finds its module, and writes as much of the name as the
    /// buffer of the query holds.
    pub open spec fn answer(self, state: LookupModel) -> Host {
        Host {
            open: OpenReply { handle: self.handle, last_error: self.last_error },
            modules: ModulesReply {
                succeeded: true,
                module: self.module,
                last_error: self.last_error,
            },
            name: written(
                self.name,
                self.last_error,
                match state {
                    LookupModel::Reading { query, .. } => query.capacity,
                    _ => 0,
                },
            ),
        }
    }

    /// The answers to the next `turns` requests of a lookup in `state`.
    pub open spec fn answers(self, state: LookupModel, turns: nat) -> Seq<Host>
        decreases turns,
    {
        if turns == 0 {
            seq![]
        } else {
            seq![self.answer(state)] + self.answers(
                state.step(self.answer(state)),
                (turns - 1) as nat,
            )
        }
    }
}

} // verus!
