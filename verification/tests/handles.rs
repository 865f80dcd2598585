use sh_run::broker::{
    Call, Operation, Session, UsageError, CLSCTX_INPROC_SERVER, COINIT_APARTMENTTHREADED,
};
use sh_run::guid::clsid_shapp;
use sh_run::handle::AcquireError;
use sh_run::status::{Failure, E_NOACCESS, E_NOINTERFACE, REGDB_E_CLASSNOTREG, S_FALSE, S_OK};
use sh_run::table::{Interface, Method};

#[test]
fn the_session_opens_apartment_threaded() {
    assert_eq!(Session::initialize_call(), Call::Initialize { reserved: 0, mode: 0x2 });
    assert_eq!(COINIT_APARTMENTTHREADED, 0x2);
    assert_eq!(Session::initialize_call().operation(), Operation::Initialize);
}

#[test]
fn both_success_outcomes_open_a_session() {
    assert!(Session::begin(S_OK).is_ok());
    assert!(Session::begin(S_FALSE).is_ok());
}

#[test]
fn any_other_status_opens_no_session() {
    assert_eq!(Session::begin(0x80010106).err().unwrap(), Failure::Unclassified(0x80010106));
    assert_eq!(Session::begin(E_NOACCESS).err().unwrap(), Failure::AccessDenied);
    assert_eq!(Session::begin(2).err().unwrap(), Failure::Unclassified(2));
}

#[test]
fn objects_are_created_in_process() {
    let session = Session::begin(S_OK).unwrap();
    let call = session.create_instance_call(clsid_shapp(), Interface::IShellDispatch);
    assert_eq!(
        call,
        Call::CreateInstance {
            class_id: clsid_shapp(),
            outer: 0,
            context: 0x1,
            interface_id: Interface::IShellDispatch.iid(),
        }
    );
    assert_eq!(CLSCTX_INPROC_SERVER, 0x1);
    assert_eq!(call.operation(), Operation::CreateInstance);
}

#[test]
fn a_success_with_an_object_yields_the_handle() {
    let mut session = Session::begin(S_OK).unwrap();
    let handle = session.acquire(Interface::IShellDispatch, S_OK, 0x7700).unwrap();
    assert_eq!(handle.object(), 0x7700);
    assert_eq!(handle.interface(), Interface::IShellDispatch);
    let call = session.release(handle);
    assert_eq!(call, Call::Release { object: 0x7700, slot: 2 });
    assert_eq!(call.operation(), Operation::Release);
    assert_eq!(session.end(), Ok(Call::Shutdown));
}

#[test]
fn a_failed_acquire_yields_no_handle() {
    let mut session = Session::begin(S_OK).unwrap();
    assert_eq!(
        session.acquire(Interface::IShellDispatch, REGDB_E_CLASSNOTREG, 0).err().unwrap(),
        AcquireError::Rejected(Failure::ClassResolution)
    );
    assert_eq!(
        session.acquire(Interface::IShellDispatch, E_NOINTERFACE, 0).err().unwrap(),
        AcquireError::Rejected(Failure::InterfaceMismatch)
    );
    assert_eq!(
        session.acquire(Interface::IShellDispatch, E_NOACCESS, 0).err().unwrap(),
        AcquireError::Rejected(Failure::AccessDenied)
    );
    assert_eq!(
        session.acquire(Interface::IShellDispatch, 0x80040110, 0).err().unwrap(),
        AcquireError::Rejected(Failure::Unclassified(0x80040110))
    );
    // nothing is held, so the session can end
    assert_eq!(session.end(), Ok(Call::Shutdown));
}

#[test]
fn a_failure_status_yields_no_handle_even_with_an_address() {
    let mut session = Session::begin(S_OK).unwrap();
    assert_eq!(
        session.acquire(Interface::IDispatch, REGDB_E_CLASSNOTREG, 0x7700).err().unwrap(),
        AcquireError::Rejected(Failure::ClassResolution)
    );
    assert_eq!(session.end(), Ok(Call::Shutdown));
}

#[test]
fn a_success_without_object_yields_no_handle() {
    let mut session = Session::begin(S_OK).unwrap();
    assert_eq!(
        session.acquire(Interface::IShellDispatch, S_OK, 0).err().unwrap(),
        AcquireError::NoObject
    );
    assert_eq!(session.live(), 0);
    assert_eq!(session.end(), Ok(Call::Shutdown));
}

#[test]
fn the_alternate_success_yields_no_handle() {
    let mut session = Session::begin(S_OK).unwrap();
    assert_eq!(
        session.acquire(Interface::IShellDispatch, S_FALSE, 0x7700).err().unwrap(),
        AcquireError::Rejected(Failure::Unclassified(1))
    );
    assert_eq!(
        session.acquire(Interface::IShellDispatch, S_FALSE, 0).err().unwrap(),
        AcquireError::Rejected(Failure::Unclassified(1))
    );
    assert_eq!(session.live(), 0);
    assert_eq!(session.end(), Ok(Call::Shutdown));
}

#[test]
fn no_status_but_zero_yields_a_handle() {
    let mut session = Session::begin(S_OK).unwrap();
    for status in [1u32, 2, 3, 0x7fffffff, 0x80000000, 0x80004005, 0x80040154, u32::MAX] {
        assert!(session.acquire(Interface::IDispatch, status, 0x7700).is_err(), "{:#x}", status);
        assert_eq!(session.live(), 0);
    }
    assert!(session.acquire(Interface::IDispatch, 0, 0x7700).is_ok());
    assert_eq!(session.live(), 1);
}

#[test]
fn a_session_does_not_end_while_a_handle_is_held() {
    let mut session = Session::begin(S_OK).unwrap();
    assert_eq!(session.live(), 0);
    let _handle = session.acquire(Interface::IDispatch, S_OK, 0x10).ok().unwrap();
    assert_eq!(session.live(), 1);
    assert_eq!(session.end(), Err(UsageError::HandlesHeld));
}

#[test]
fn a_session_counts_every_handle() {
    let mut session = Session::begin(S_FALSE).unwrap();
    let first = session.acquire(Interface::IDispatch, S_OK, 0x10).unwrap();
    let second = session.acquire(Interface::IClassFactory, S_OK, 0x20).unwrap();
    assert_eq!(session.live(), 2);
    assert_eq!(session.release(first), Call::Release { object: 0x10, slot: 2 });
    assert_eq!(session.live(), 1);
    assert_eq!(session.release(second), Call::Release { object: 0x20, slot: 2 });
    assert_eq!(session.live(), 0);
    assert_eq!(session.end(), Ok(Call::Shutdown));
}

#[test]
fn a_method_is_called_through_its_slot() {
    let mut session = Session::begin(S_OK).unwrap();
    let handle = session.acquire(Interface::IShellDispatch, S_OK, 0x7700).unwrap();
    assert_eq!(handle.invoke(Method::FileRun), Some(Call::Invoke { object: 0x7700, slot: 16 }));
    assert_eq!(handle.invoke(Method::MinimizeAll), Some(Call::Invoke { object: 0x7700, slot: 14 }));
    assert_eq!(handle.invoke(Method::RefreshMenu), Some(Call::Invoke { object: 0x7700, slot: 28 }));
    assert_eq!(handle.invoke(Method::FileRun).unwrap().operation(), Operation::Invoke);
    session.release(handle);
}

#[test]
fn a_handle_calls_only_what_its_interface_has() {
    let mut session = Session::begin(S_OK).unwrap();
    let handle = session.acquire(Interface::IDispatch, S_OK, 0x7700).unwrap();
    assert_eq!(handle.invoke(Method::FileRun), None);
    assert_eq!(handle.invoke(Method::CreateInstance), None);
    session.release(handle);
}

#[test]
fn a_handle_does_not_count_references_by_call() {
    let mut session = Session::begin(S_OK).unwrap();
    let handle = session.acquire(Interface::IShellDispatch, S_OK, 0x7700).unwrap();
    assert_eq!(handle.invoke(Method::Release), None);
    assert_eq!(handle.invoke(Method::AddRef), None);
    session.release(handle);
}

#[test]
fn a_handle_does_not_call_without_the_declared_arguments() {
    let mut session = Session::begin(S_OK).unwrap();
    let handle = session.acquire(Interface::IShellDispatch, S_OK, 0x7700).unwrap();
    assert_eq!(handle.invoke(Method::QueryInterface), None);
    assert_eq!(handle.invoke(Method::Invoke), None);
    assert_eq!(handle.invoke(Method::ControlPanelItem), None);
    assert_eq!(handle.invoke(Method::NameSpace), None);
    assert_eq!(handle.invoke(Method::Open), None);
    session.release(handle);
}
