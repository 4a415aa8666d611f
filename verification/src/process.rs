//! An opened process: one operating-system handle under single ownership.
use vstd::prelude::*;
use crate::error::OsError;
use crate::name::ModuleQuery;

verus! {

/// The right to read a process's memory.
pub const PROCESS_VM_READ: u32 = 0x0010;

/// The right to query information about a process.
pub const PROCESS_QUERY_INFORMATION: u32 = 0x0400;

/// The rights asked for when a process is opened: querying information and
/// reading memory, nothing else.
pub const QUERY_ACCESS: u32 = 0x0410;

/// The right to terminate a process.
pub const PROCESS_TERMINATE: u32 = 0x0001;

/// The right to create a thread in a process.
pub const PROCESS_CREATE_THREAD: u32 = 0x0002;

/// The right to change the memory protection of a process.
pub const PROCESS_VM_OPERATION: u32 = 0x0008;

/// The right to write to a process's memory.
pub const PROCESS_VM_WRITE: u32 = 0x0020;

/// The request to open a process.
#[derive(Clone, Copy, Debug, PartialEq, Eq, Structural)]
pub struct OpenRequest {
    pub pid: u32,
    /// The access rights to ask for.
    pub access: u32,
    /// Whether child processes are to inherit the handle.
    pub inherit: bool,
}

/// What the system answered to an [`OpenRequest`].
#[derive(Clone, Copy, Debug, PartialEq, Eq, Structural)]
pub struct OpenReply {
    /// The handle returned, as an address; zero when the call failed.
    pub handle: usize,
    /// The calling thread's last-error code right after the call.
    pub last_error: u32,
}

/// The request to release a handle.
#[derive(Clone, Copy, Debug, PartialEq, Eq, Structural)]
pub struct CloseRequest {
    pub handle: usize,
}

/// A process that was opened successfully. It owns its handle: the value
/// cannot be copied, and the only way to part with the handle is
/// [`Process::close`], which consumes the value. A process that is dropped
/// instead leaves its handle open.
#[derive(Debug)]
#[must_use]
pub struct Process {
    pid: u32,
    handle: usize,
}

impl Process {
    #[verifier::type_invariant]
    spec fn holds_a_handle(&self) -> bool {
        self.handle != 0
    }

    /// The identifier that the process was opened by.
    pub closed spec fn spec_pid(&self) -> u32 {
        self.pid
    }

    /// The handle that the process owns.
    pub closed spec fn spec_handle(&self) -> usize {
        self.handle
    }

    /// What to ask the system in order to open process `pid`.
    pub fn request(pid: u32) -> (r: OpenRequest)
        ensures
            r == (OpenRequest { pid, access: QUERY_ACCESS, inherit: false }),
    {
        OpenRequest { pid, access: QUERY_ACCESS, inherit: false }
    }

    /// Takes ownership of the handle in `reply`, the system's answer to the
    /// request to open `pid`. A zero handle means that the call failed, and
    /// the last-error code of the reply is returned.
    pub fn open(pid: u32, reply: OpenReply) -> (r: Result<Process, OsError>)
        ensures
            reply.handle != 0 ==> r is Ok && r->Ok_0.pid() == pid && r->Ok_0.handle()
                == reply.handle,
            reply.handle == 0 ==> r == Err::<Process, OsError>(
                OsError { code: reply.last_error },
            ),
    {
        if reply.handle == 0 {
            Err(OsError { code: reply.last_error })
        } else {
            Ok(Process { pid, handle: reply.handle })
        }
    }

    /// The identifier that the process was opened by.
    #[verifier::when_used_as_spec(spec_pid)]
    pub fn pid(&self) -> (r: u32)
        ensures
            r == self.spec_pid(),
    {
        self.pid
    }

    /// The handle that the process owns. It is never zero.
    #[verifier::when_used_as_spec(spec_handle)]
    pub fn handle(&self) -> (r: usize)
        ensures
            r == self.spec_handle(),
            r != 0,
    {
        proof {
            use_type_invariant(self);
        }
        self.handle
    }

    /// Begins the resolution of the process's name: the first query to put
    /// to the system, on the handle that this process owns.
    pub fn name(&self) -> (r: ModuleQuery)
        ensures
            r == (ModuleQuery { handle: self.handle() }),
    {
        ModuleQuery { handle: self.handle }
    }

    /// Gives the handle up for release. The process is consumed, so no
    /// second release of the same handle can be asked for.
    pub fn close(self) -> (r: CloseRequest)
        ensures
            r.handle == self.handle(),
            r.handle != 0,
    {
        proof {
            use_type_invariant(&self);
        }
        CloseRequest { handle: self.handle }
    }
}

/// The rights that are asked for are the two read-only rights and no
/// other: none to terminate the process, to run code in it or to write to
/// its memory.
pub proof fn lemma_access_is_read_only()
    ensures
        QUERY_ACCESS == PROCESS_QUERY_INFORMATION | PROCESS_VM_READ,
        QUERY_ACCESS & PROCESS_TERMINATE == 0,
        QUERY_ACCESS & PROCESS_CREATE_THREAD == 0,
        QUERY_ACCESS & PROCESS_VM_OPERATION == 0,
        QUERY_ACCESS & PROCESS_VM_WRITE == 0,
{
    assert(0x0410u32 == 0x0400u32 | 0x0010u32) by (bit_vector);
    assert(0x0410u32 & 0x0001u32 == 0) by (bit_vector);
    assert(0x0410u32 & 0x0002u32 == 0) by (bit_vector);
    assert(0x0410u32 & 0x0008u32 == 0) by (bit_vector);
    assert(0x0410u32 & 0x0020u32 == 0) by (bit_vector);
}

} // verus!
