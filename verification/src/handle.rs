//! Handles to foreign objects: acquired once, used while held, released
//! once.

use vstd::prelude::*;
use crate::broker::Call;
use crate::status::{failure_of, failure_of_spec, Failure, HRESULT};
use crate::table::{lemma_base_object_operations, Interface, Method};
use crate::types::ComPtr;

verus! {

/// Why a create-instance call yielded no handle.
#[derive(Clone, Copy, Debug, PartialEq, Eq, Structural)]
pub enum AcquireError {
    /// The call returned another status than `S_OK`.
    Rejected(Failure),
    /// The call returned `S_OK` and wrote no object.
    NoObject,
}

/// Whether a create-instance call that returned `status` and wrote `object`
/// yields a handle, and if not, why not. Only `S_OK` with an address that is
/// not null yields one; every other status is a rejection, whatever was
/// written.
pub open spec fn acquire_spec(status: HRESULT, object: ComPtr) -> Result<(), AcquireError> {
    match failure_of_spec(status) {
        Some(cause) => Err(AcquireError::Rejected(cause)),
        None => if object == 0 {
            Err(AcquireError::NoObject)
        } else {
            Ok(())
        },
    }
}

/// Whether an entry point can be called with the object as its only
/// argument and answers with a status code.
pub open spec fn invocable(interface: Interface, method: Method) -> bool {
    interface.layout().contains(method) && method.arity_spec() == Some(0nat)
        && method.returns_status_spec()
}

/// A held reference to a foreign object, read through one interface. There
/// is no way to copy a handle, and releasing it consumes it.
pub struct ObjectHandle {
    object: ComPtr,
    interface: Interface,
    session: Ghost<int>,
}

impl ObjectHandle {
    /// The address of the object.
    pub closed spec fn object_spec(&self) -> ComPtr {
        self.object
    }

    /// The interface whose table the object's table pointer addresses.
    pub closed spec fn interface_spec(&self) -> Interface {
        self.interface
    }

    /// The identity of the session in which the handle was obtained.
    pub closed spec fn session_spec(&self) -> int {
        self.session@
    }

    /// A handle never holds the null address.
    pub open spec fn wf(&self) -> bool {
        self.object_spec() != 0
    }

    #[verifier::type_invariant]
    spec fn never_null(self) -> bool {
        self.wf()
    }

    /// Takes what a create-instance call returned, for the session named.
    pub(crate) fn acquire(
        interface: Interface,
        status: HRESULT,
        object: ComPtr,
        session: Ghost<int>,
    ) -> (acquired: Result<ObjectHandle, AcquireError>)
        ensures
            match acquire_spec(status, object) {
                Ok(()) => acquired matches Ok(handle) && handle.object_spec() == object
                    && handle.interface_spec() == interface && handle.session_spec() == session@
                    && handle.wf(),
                Err(cause) => acquired == Err::<ObjectHandle, AcquireError>(cause),
            },
    {
        match failure_of(status) {
            Some(cause) => Err(AcquireError::Rejected(cause)),
            None => {
                if object == 0 {
                    Err(AcquireError::NoObject)
                } else {
                    Ok(ObjectHandle { object, interface, session })
                }
            },
        }
    }

    /// The address of the object.
    #[verifier::when_used_as_spec(object_spec)]
    pub fn object(&self) -> (object: ComPtr)
        ensures
            object == self.object_spec(),
            object != 0,
    {
        proof {
            use_type_invariant(self);
        }
        self.object
    }

    /// The interface whose table the object's table pointer addresses.
    #[verifier::when_used_as_spec(interface_spec)]
    pub fn interface(&self) -> (interface: Interface)
        ensures
            interface == self.interface_spec(),
    {
        self.interface
    }

    /// The call of an entry point through the handle: the function in the
    /// entry point's slot, with the object as its only argument. `None` if
    /// the interface has no such entry point, if the entry point declares
    /// further arguments, or if it counts references.
    pub fn invoke(&self, method: Method) -> (call: Option<Call>)
        ensures
            self.wf(),
            call == if invocable(self.interface_spec(), method) {
                Some(
                    Call::Invoke {
                        object: self.object_spec(),
                        slot: self.interface_spec().slot_of_spec(method).unwrap() as usize,
                    },
                )
            } else {
                None
            },
    {
        proof {
            use_type_invariant(self);
        }
        if !method.returns_status() {
            return None;
        }
        match method.arity() {
            Some(0) => {},
            _ => {
                return None;
            },
        }
        match self.interface.slot_of(method) {
            None => None,
            Some(slot) => Some(Call::Invoke { object: self.object, slot }),
        }
    }

    /// The call that drops the object's reference: the function in the slot
    /// of `Release`, which is slot 2 in every table. It consumes the handle.
    pub(crate) fn release(self) -> (call: Call)
        ensures
            call == (Call::Release { object: self.object_spec(), slot: 2 }),
            self.interface_spec().slot_of_spec(Method::Release) == Some(2int),
            self.object_spec() != 0,
    {
        proof {
            use_type_invariant(&self);
            lemma_base_object_operations(self.interface);
        }
        Call::Release { object: self.object, slot: 2 }
    }
}

} // verus!
