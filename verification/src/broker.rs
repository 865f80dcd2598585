//! The calls into the foreign object broker, and the session in which they
//! are legal.

use vstd::prelude::*;
use crate::guid::{CLSID, IID};
use crate::handle::{AcquireError, ObjectHandle};
use crate::status::{classify, classify_spec, Failure, Status, HRESULT};
use crate::table::Interface;
use crate::types::{ComPtr, DWORD};

verus! {

pub const CLSCTX_INPROC_SERVER: DWORD = 0x1;

pub const CLSCTX_INPROC_HANDLER: DWORD = 0x2;

pub const CLSCTX_LOCAL_SERVER: DWORD = 0x4;

pub const CLSCTX_INPROC_SERVER16: DWORD = 0x8;

pub const CLSCTX_REMOTE_SERVER: DWORD = 0x10;

pub const CLSCTX_INPROC_HANDLER16: DWORD = 0x20;

pub const CLSCTX_RESERVED1: DWORD = 0x40;

pub const CLSCTX_RESERVED2: DWORD = 0x80;

pub const CLSCTX_RESERVED3: DWORD = 0x100;

pub const CLSCTX_RESERVED4: DWORD = 0x200;

pub const CLSCTX_NO_CODE_DOWNLOAD: DWORD = 0x400;

pub const CLSCTX_RESERVED5: DWORD = 0x800;

pub const CLSCTX_NO_CUSTOM_MARSHAL: DWORD = 0x1000;

pub const CLSCTX_ENABLE_CODE_DOWNLOAD: DWORD = 0x2000;

pub const CLSCTX_NO_FAILURE_LOG: DWORD = 0x4000;

pub const CLSCTX_DISABLE_AAA: DWORD = 0x8000;

pub const CLSCTX_ENABLE_AAA: DWORD = 0x10000;

pub const CLSCTX_FROM_DEFAULT_CONTEXT: DWORD = 0x20000;

pub const CLSCTX_ACTIVATE_32_BIT_SERVER: DWORD = 0x40000;

pub const CLSCTX_ACTIVATE_64_BIT_SERVER: DWORD = 0x80000;

pub const CLSCTX_ENABLE_CLOAKING: DWORD = 0x100000;

pub const CLSCTX_APPCONTAINER: DWORD = 0x400000;

pub const CLSCTX_ACTIVATE_AAA_AS_IU: DWORD = 0x800000;

pub const CLSCTX_PS_DLL: DWORD = 0x80000000;

pub const COINIT_APARTMENTTHREADED: DWORD = 0x2;

pub const COINIT_MULTITHREADED: DWORD = 0x0;

pub const COINIT_DISABLE_OLE1DDE: DWORD = 0x4;

pub const COINIT_SPEED_OVER_MEMORY: DWORD = 0x8;

/// One call to make on the foreign side. The library decides which call is
/// due and with what arguments; making it is the caller's part.
#[derive(Clone, Copy, Debug, PartialEq, Eq)]
pub enum Call {
    /// Initialize the subsystem for the calling thread.
    Initialize { reserved: ComPtr, mode: DWORD },
    /// Create an object of a class and ask for one of its interfaces.
    CreateInstance { class_id: CLSID, outer: ComPtr, context: DWORD, interface_id: IID },
    /// Call the function in `slot` of the object's table, with the object as
    /// its only argument. It returns a status code.
    Invoke { object: ComPtr, slot: usize },
    /// Call the reference-dropping function in `slot` of the object's table,
    /// with the object as its only argument. The object must not be used
    /// afterwards.
    Release { object: ComPtr, slot: usize },
    /// Tear the subsystem down for the calling thread.
    Shutdown,
}

/// The operations of the foreign side.
#[derive(Clone, Copy, Debug, PartialEq, Eq, Structural)]
pub enum Operation {
    Initialize,
    CreateInstance,
    Invoke,
    Release,
    Shutdown,
}

impl Operation {
    /// The name under which the foreign side knows the operation.
    pub open spec fn name_spec(self) -> Seq<char> {
        match self {
            Operation::Initialize => "CoInitializeEx"@,
            Operation::CreateInstance => "CoCreateInstance"@,
            Operation::Invoke => "method call"@,
            Operation::Release => "Release"@,
            Operation::Shutdown => "CoUninitialize"@,
        }
    }

    /// The name under which the foreign side knows the operation.
    pub fn name(self) -> (name: &'static str)
        ensures
            name@ == self.name_spec(),
    {
        match self {
            Operation::Initialize => "CoInitializeEx",
            Operation::CreateInstance => "CoCreateInstance",
            Operation::Invoke => "method call",
            Operation::Release => "Release",
            Operation::Shutdown => "CoUninitialize",
        }
    }
}

impl Call {
    /// The operation that the call performs.
    pub open spec fn operation_spec(self) -> Operation {
        match self {
            Call::Initialize { .. } => Operation::Initialize,
            Call::CreateInstance { .. } => Operation::CreateInstance,
            Call::Invoke { .. } => Operation::Invoke,
            Call::Release { .. } => Operation::Release,
            Call::Shutdown => Operation::Shutdown,
        }
    }

    /// The operation that the call performs.
    #[verifier::when_used_as_spec(operation_spec)]
    pub fn operation(self) -> (operation: Operation)
        ensures
            operation == self.operation_spec(),
    {
        match self {
            Call::Initialize { .. } => Operation::Initialize,
            Call::CreateInstance { .. } => Operation::CreateInstance,
            Call::Invoke { .. } => Operation::Invoke,
            Call::Release { .. } => Operation::Release,
            Call::Shutdown => Operation::Shutdown,
        }
    }
}

/// A use of the foreign side against its rules of order.
#[derive(Clone, Copy, Debug, PartialEq, Eq, Structural)]
pub enum UsageError {
    /// The session was to end while handles obtained in it were still held.
    HandlesHeld,
    /// The answer to one operation arrived while another was awaited.
    OutOfOrder { awaited: Operation, answered: Operation },
}

/// The time between a successful initialization of the subsystem and its
/// shutdown. Objects are created only through a session, and a session ends
/// only when every handle obtained in it has been released.
///
/// A session has an identity, which each handle obtained in it carries. The
/// identity exists for the contracts alone: nothing is stated of its value,
/// so that a handle is known to belong to a session only from the call that
/// acquired it there.
pub struct Session {
    live: usize,
    id: Ghost<int>,
}

impl Session {
    /// How many handles obtained in this session are still held.
    pub closed spec fn live_spec(&self) -> usize {
        self.live
    }

    /// The identity of the session.
    pub closed spec fn id(&self) -> int {
        self.id@
    }

    /// Whether the handle was obtained in this session.
    pub open spec fn owns(&self, handle: &ObjectHandle) -> bool {
        handle.session_spec() == self.id()
    }

    /// The call that opens a session: apartment-threaded, nothing reserved.
    pub fn initialize_call() -> (call: Call)
        ensures
            call == (Call::Initialize { reserved: 0, mode: COINIT_APARTMENTTHREADED }),
    {
        Call::Initialize { reserved: 0, mode: COINIT_APARTMENTTHREADED }
    }

    /// Opens a session from the status that the initialization returned. Both
    /// success outcomes open one; any other status is the failure returned.
    pub fn begin(status: HRESULT) -> (opened: Result<Session, Failure>)
        ensures
            match classify_spec(status) {
                Status::Failure(cause) => opened == Err::<Session, Failure>(cause),
                _ => opened matches Ok(session) && session.live_spec() == 0,
            },
    {
        match classify(status) {
            Status::Failure(cause) => Err(cause),
            _ => Ok(Session { live: 0, id: Ghost(arbitrary()) }),
        }
    }

    /// How many handles obtained in this session are still held. A session
    /// can take a further handle while the count is below `usize::MAX`, can
    /// give one up while it is above zero, and can end when it is zero.
    #[verifier::when_used_as_spec(live_spec)]
    pub fn live(&self) -> (count: usize)
        ensures
            count == self.live_spec(),
    {
        self.live
    }

    /// The call that creates an object of `class_id` in this process and asks
    /// for `interface`.
    pub fn create_instance_call(&self, class_id: CLSID, interface: Interface) -> (call: Call)
        ensures
            call == (Call::CreateInstance {
                class_id,
                outer: 0,
                context: CLSCTX_INPROC_SERVER,
                interface_id: interface.iid_spec(),
            }),
    {
        Call::CreateInstance {
            class_id,
            outer: 0,
            context: CLSCTX_INPROC_SERVER,
            interface_id: interface.iid(),
        }
    }

    /// Takes what a create-instance call returned: its status and the
    /// address it wrote. `S_OK` with an address that is not null yields the
    /// handle, which belongs to this session and which the session counts
    /// from now on; anything else yields no handle and leaves the session as
    /// it was.
    pub fn acquire(&mut self, interface: Interface, status: HRESULT, object: ComPtr) -> (acquired:
        Result<ObjectHandle, AcquireError>)
        requires
            old(self).live_spec() < usize::MAX,
        ensures
            final(self).id() == old(self).id(),
            match crate::handle::acquire_spec(status, object) {
                Ok(()) => acquired matches Ok(handle) && handle.object_spec() == object
                    && handle.interface_spec() == interface && handle.wf() && final(self).owns(
                    &handle,
                ) && final(self).live_spec() == old(self).live_spec() + 1,
                Err(cause) => acquired == Err::<ObjectHandle, AcquireError>(cause)
                    && final(self).live_spec() == old(self).live_spec(),
            },
    {
        match ObjectHandle::acquire(interface, status, object, Ghost(self.id@)) {
            Ok(handle) => {
                self.live = self.live + 1;
                Ok(handle)
            },
            Err(cause) => Err(cause),
        }
    }

    /// Gives up a handle obtained in this session. The handle is consumed;
    /// the call returned drops the object's reference and must be made once.
    pub fn release(&mut self, handle: ObjectHandle) -> (call: Call)
        requires
            old(self).owns(&handle),
            old(self).live_spec() > 0,
        ensures
            call == (Call::Release { object: handle.object_spec(), slot: 2 }),
            handle.object_spec() != 0,
            final(self).id() == old(self).id(),
            final(self).live_spec() == old(self).live_spec() - 1,
    {
        self.live = self.live - 1;
        handle.release()
    }

    /// Ends the session. The shutdown call is due only if no handle obtained
    /// in the session is still held.
    pub fn end(self) -> (call: Result<Call, UsageError>)
        ensures
            call == if self.live_spec() == 0 {
                Ok::<Call, UsageError>(Call::Shutdown)
            } else {
                Err::<Call, UsageError>(UsageError::HandlesHeld)
            },
    {
        if self.live == 0 {
            Ok(Call::Shutdown)
        } else {
            Err(UsageError::HandlesHeld)
        }
    }
}

} // verus!
