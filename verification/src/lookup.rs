//! Looking one process up, from opening it to releasing its handle, as a
//! state machine: each state names one request to the system, and the
//! system's answer decides the next state. The embedding program carries
//! the requests out; the handle stays in the keeping of the lookup.
pub mod laws;
pub mod model;

use vstd::prelude::*;
use crate::error::NameError;
use crate::lookup::model::LookupModel;
use crate::name::{text_of, ModuleQuery, ModulesReply, NameQuery, NameReply, NameStep};
use crate::process::{CloseRequest, OpenReply, OpenRequest, Process};
use crate::report::Outcome;

verus! {

/// A request that a lookup puts to the system.
#[derive(Clone, Copy, Debug, PartialEq, Eq, Structural)]
pub enum Request {
    Open(OpenRequest),
    Modules(ModuleQuery),
    Name(NameQuery),
    Close(CloseRequest),
}

impl Request {
    /// The handle that the request passes to the system, if it passes one.
    pub open spec fn handle(self) -> Option<usize> {
        match self {
            Request::Open(_) => None,
            Request::Modules(query) => Some(query.handle),
            Request::Name(query) => Some(query.handle),
            Request::Close(request) => Some(request.handle),
        }
    }
}

/// The greatest number of requests that one lookup puts.
pub const MAX_TURNS: usize = 13;

/// A lookup that is about to open its process.
#[derive(Debug)]
pub struct Opening {
    pid: u32,
}

/// A lookup that holds its process and is about to find the primary module.
#[derive(Debug)]
pub struct Finding {
    process: Process,
}

/// A lookup that holds its process and is about to read the module's name.
#[derive(Debug)]
pub struct Reading {
    process: Process,
    query: NameQuery,
}

/// A lookup whose resolution is over and that is about to release the
/// handle of its process.
#[derive(Debug)]
pub struct Closing {
    process: Process,
    result: Result<String, NameError>,
}

/// The lookup of one process identifier. Each state but the last offers
/// `request`, the request to carry out, and `advance`, which takes the
/// system's answer and gives the next state. A lookup is to be carried on
/// until it is over: one that is dropped earlier may leave a handle open.
#[derive(Debug)]
#[must_use]
pub enum Lookup {
    Opening(Opening),
    Finding(Finding),
    Reading(Reading),
    Closing(Closing),
    Done(Outcome),
}

impl Opening {
    /// The identifier that is looked up.
    pub closed spec fn pid(&self) -> u32 {
        self.pid
    }
}

impl Finding {
    /// The identifier that is looked up.
    pub closed spec fn pid(&self) -> u32 {
        self.process.pid()
    }

    /// The handle that the lookup owns.
    pub closed spec fn handle(&self) -> usize {
        self.process.handle()
    }
}

impl Reading {
    /// The identifier that is looked up.
    pub closed spec fn pid(&self) -> u32 {
        self.process.pid()
    }

    /// The query that is put next; its handle is the one that the lookup
    /// owns.
    pub closed spec fn query(&self) -> NameQuery {
        self.query
    }
}

impl Closing {
    /// The identifier that is looked up.
    pub closed spec fn pid(&self) -> u32 {
        self.process.pid()
    }

    /// The handle that the lookup owns.
    pub closed spec fn handle(&self) -> usize {
        self.process.handle()
    }

    /// The result of the resolution.
    pub closed spec fn result(&self) -> Result<Seq<char>, NameError> {
        text_of(self.result)
    }
}

impl View for Opening {
    type V = LookupModel;

    open spec fn view(&self) -> LookupModel {
        LookupModel::Opening { pid: self.pid() }
    }
}

impl View for Finding {
    type V = LookupModel;

    open spec fn view(&self) -> LookupModel {
        LookupModel::Finding { pid: self.pid(), handle: self.handle() }
    }
}

impl View for Reading {
    type V = LookupModel;

    open spec fn view(&self) -> LookupModel {
        LookupModel::Reading { pid: self.pid(), query: self.query() }
    }
}

impl View for Closing {
    type V = LookupModel;

    open spec fn view(&self) -> LookupModel {
        LookupModel::Closing { pid: self.pid(), handle: self.handle(), result: self.result() }
    }
}

impl View for Lookup {
    type V = LookupModel;

    open spec fn view(&self) -> LookupModel {
        match *self {
            Lookup::Opening(state) => state@,
            Lookup::Finding(state) => state@,
            Lookup::Reading(state) => state@,
            Lookup::Closing(state) => state@,
            Lookup::Done(outcome) => LookupModel::Done { outcome: outcome@ },
        }
    }
}

impl Lookup {
    /// Begins the lookup of `pid`.
    pub fn start(pid: u32) -> (r: Lookup)
        ensures
            r@ == LookupModel::start(pid),
    {
        Lookup::Opening(Opening { pid })
    }

    /// The request to carry out next; none when the lookup is over.
    pub fn request(&self) -> (r: Option<Request>)
        ensures
            r == self@.request(),
    {
        match self {
            Lookup::Opening(state) => Some(Request::Open(state.request())),
            Lookup::Finding(state) => Some(Request::Modules(state.request())),
            Lookup::Reading(state) => Some(Request::Name(state.request())),
            Lookup::Closing(state) => Some(Request::Close(state.request())),
            Lookup::Done(_) => None,
        }
    }
}

impl Opening {
    /// The request to carry out: open the process, for reading only.
    pub fn request(&self) -> (r: OpenRequest)
        ensures
            self@.request() == Some(Request::Open(r)),
    {
        Process::request(self.pid)
    }

    /// Takes the system's answer. On success the lookup owns the handle of
    /// the reply; on failure it is over.
    pub fn advance(self, reply: OpenReply) -> (r: Lookup)
        ensures
            r@ == self@.opened(reply),
    {
        let pid: u32 = self.pid;
        match Process::open(pid, reply) {
            Ok(process) => Lookup::Finding(Finding { process }),
            Err(error) => Lookup::Done(Outcome::OpenFailed { pid, error }),
        }
    }
}

impl Finding {
    /// The request to carry out: list the modules of the process.
    pub fn request(&self) -> (r: ModuleQuery)
        ensures
            self@.request() == Some(Request::Modules(r)),
    {
        self.process.name()
    }

    /// Takes the system's answer. The lookup keeps its handle.
    pub fn advance(self, reply: ModulesReply) -> (r: Lookup)
        ensures
            r@ == self@.found(reply),
    {
        let process = self.process;
        match process.name().advance(reply) {
            Ok(query) => Lookup::Reading(Reading { process, query }),
            Err(error) => Lookup::Closing(Closing { process, result: Err(error) }),
        }
    }
}

impl Reading {
    #[verifier::type_invariant]
    spec fn queries_own_process(&self) -> bool {
        self.query.handle == self.process.handle()
    }

    /// The request to carry out: read the name of the module.
    pub fn request(&self) -> (r: NameQuery)
        ensures
            self@.request() == Some(Request::Name(r)),
    {
        self.query
    }

    /// Takes the system's answer. The lookup keeps its handle.
    pub fn advance(self, reply: NameReply) -> (r: Lookup)
        ensures
            r@ == self@.read(reply@),
    {
        proof {
            use_type_invariant(&self);
        }
        let process = self.process;
        match self.query.advance(reply) {
            NameStep::Retry(query) => Lookup::Reading(Reading { process, query }),
            NameStep::Done(result) => Lookup::Closing(Closing { process, result }),
        }
    }
}

impl Closing {
    /// The request to carry out: release the handle.
    pub fn request(&self) -> (r: CloseRequest)
        ensures
            self@.request() == Some(Request::Close(r)),
    {
        CloseRequest { handle: self.process.handle() }
    }

    /// Gives the handle up: the process is consumed with the state, and
    /// the lookup is over.
    pub fn advance(self) -> (r: Lookup)
        ensures
            r@ == self@.released(),
    {
        let pid: u32 = self.process.pid();
        let _ = self.process.close();
        match self.result {
            Ok(name) => Lookup::Done(Outcome::Named { pid, name }),
            Err(error) => Lookup::Done(Outcome::NameFailed { pid, error }),
        }
    }
}

} // verus!
