use sh_run::broker::{Call, Operation, UsageError};
use sh_run::guid::{clsid_shapp, GUID};
use sh_run::handle::AcquireError;
use sh_run::report::Diagnostic;
use sh_run::run::{show_run_file_dialog, Action, Event, Phase};
use sh_run::status::{Failure, HRESULT, REGDB_E_CLASSNOTREG, S_FALSE, S_OK};
use sh_run::table::{Interface, Method};

const OBJECT: usize = 0x0040_1000;

/// A foreign side that answers as told and keeps count of what it was asked.
struct MockBroker {
    initialize: HRESULT,
    create: HRESULT,
    object: usize,
    invoke: HRESULT,
    calls: Vec<Call>,
    released: Vec<usize>,
    invoked: Vec<(usize, usize)>,
    requested: Option<(GUID, GUID)>,
    shut_down: usize,
}

impl MockBroker {
    fn new(initialize: HRESULT, create: HRESULT, object: usize, invoke: HRESULT) -> MockBroker {
        MockBroker {
            initialize,
            create,
            object,
            invoke,
            calls: Vec::new(),
            released: Vec::new(),
            invoked: Vec::new(),
            requested: None,
            shut_down: 0,
        }
    }

    fn perform(&mut self, call: Call) -> Event {
        self.calls.push(call);
        match call {
            Call::Initialize { reserved, mode } => {
                assert_eq!(reserved, 0);
                assert_eq!(mode, 0x2);
                Event::Initialized(self.initialize)
            }
            Call::CreateInstance { class_id, outer, context, interface_id } => {
                assert_eq!(outer, 0);
                assert_eq!(context, 0x1);
                self.requested = Some((class_id, interface_id));
                Event::Created { status: self.create, object: self.object }
            }
            Call::Invoke { object, slot } => {
                assert!(!self.released.contains(&object), "call through a released object");
                self.invoked.push((object, slot));
                Event::Invoked(self.invoke)
            }
            Call::Release { object, slot } => {
                assert_eq!(slot, 2);
                self.released.push(object);
                Event::Released
            }
            Call::Shutdown => {
                self.shut_down += 1;
                Event::ShutDown
            }
        }
    }
}

/// Runs the sequence against the broker until it ends.
fn drive(broker: &mut MockBroker) -> Result<(), Diagnostic> {
    let (mut sequence, mut action) = show_run_file_dialog();
    for _ in 0..16 {
        let call = match action {
            Action::Perform(call) => call,
            Action::Finish => {
                assert_eq!(sequence.phase(), Phase::Finished);
                return Ok(());
            }
            Action::Abort(diagnostic) => {
                assert_eq!(sequence.phase(), Phase::Aborted(diagnostic));
                return Err(diagnostic);
            }
        };
        let event = broker.perform(call);
        let next = sequence.step(event);
        sequence = next.0;
        action = next.1;
    }
    panic!("the sequence did not end");
}

#[test]
fn the_sequence_begins_with_the_initialization() {
    let (sequence, action) = show_run_file_dialog();
    assert_eq!(sequence.phase(), Phase::Initializing);
    assert_eq!(action, Action::Perform(Call::Initialize { reserved: 0, mode: 0x2 }));
}

#[test]
fn end_to_end_with_a_broker_that_succeeds() {
    let mut broker = MockBroker::new(S_OK, S_OK, OBJECT, S_OK);
    assert_eq!(drive(&mut broker), Ok(()));
    assert_eq!(
        broker.calls,
        vec![
            Call::Initialize { reserved: 0, mode: 0x2 },
            Call::CreateInstance {
                class_id: clsid_shapp(),
                outer: 0,
                context: 0x1,
                interface_id: Interface::IShellDispatch.iid(),
            },
            Call::Invoke { object: OBJECT, slot: 16 },
            Call::Release { object: OBJECT, slot: 2 },
            Call::Shutdown,
        ]
    );
    assert_eq!(broker.requested, Some((clsid_shapp(), Interface::IShellDispatch.iid())));
    assert_eq!(broker.invoked, vec![(OBJECT, 16)]);
    assert_eq!(broker.released, vec![OBJECT]);
    assert_eq!(broker.shut_down, 1);
}

#[test]
fn the_method_called_is_file_run() {
    let mut broker = MockBroker::new(S_OK, S_OK, OBJECT, S_OK);
    assert_eq!(drive(&mut broker), Ok(()));
    let (_, slot) = broker.invoked[0];
    assert_eq!(Interface::IShellDispatch.method_at(slot), Some(Method::FileRun));
    let (_, interface_id) = broker.requested.unwrap();
    assert_eq!(Interface::from_iid(&interface_id), Some(Interface::IShellDispatch));
}

#[test]
fn an_already_initialized_subsystem_is_a_success() {
    let mut broker = MockBroker::new(S_FALSE, S_OK, OBJECT, S_OK);
    assert_eq!(drive(&mut broker), Ok(()));
    assert_eq!(broker.released, vec![OBJECT]);
    assert_eq!(broker.shut_down, 1);
}

#[test]
fn an_unregistered_class_is_fatal_at_once() {
    let mut broker = MockBroker::new(S_OK, REGDB_E_CLASSNOTREG, 0, S_OK);
    let diagnostic = drive(&mut broker).unwrap_err();
    assert_eq!(diagnostic, Diagnostic::CreateInstance(AcquireError::Rejected(Failure::ClassResolution)));
    assert_eq!(diagnostic.message(), "CoCreateInstance failed: class not registered");
    assert_eq!(broker.calls.len(), 2);
    assert!(broker.invoked.is_empty());
    assert!(broker.released.is_empty());
    assert_eq!(broker.shut_down, 0);
}

#[test]
fn a_missing_interface_is_fatal_at_once() {
    let mut broker = MockBroker::new(S_OK, 0x80004002, 0, S_OK);
    let diagnostic = drive(&mut broker).unwrap_err();
    assert_eq!(diagnostic.message(), "CoCreateInstance failed: class does not implement interface");
    assert!(broker.invoked.is_empty());
    assert!(broker.released.is_empty());
}

#[test]
fn denied_access_is_fatal_at_once() {
    let mut broker = MockBroker::new(S_OK, 0x800703e6, 0, S_OK);
    let diagnostic = drive(&mut broker).unwrap_err();
    assert_eq!(
        diagnostic.message(),
        "CoCreateInstance failed: ERROR_NOACCESS; see https://github.com/rust-lang/rust/issues/13259"
    );
    assert!(broker.invoked.is_empty());
    assert!(broker.released.is_empty());
}

#[test]
fn an_unknown_creation_failure_shows_its_status() {
    let mut broker = MockBroker::new(S_OK, 0x80040110, 0, S_OK);
    let diagnostic = drive(&mut broker).unwrap_err();
    assert_eq!(
        diagnostic,
        Diagnostic::CreateInstance(AcquireError::Rejected(Failure::Unclassified(0x80040110)))
    );
    assert_eq!(diagnostic.message(), "CoCreateInstance failed: error 0x80040110");
    assert!(broker.released.is_empty());
}

#[test]
fn an_unknown_initialization_status_is_fatal_with_its_value() {
    let mut broker = MockBroker::new(0x80010106, S_OK, OBJECT, S_OK);
    let diagnostic = drive(&mut broker).unwrap_err();
    assert_eq!(diagnostic, Diagnostic::Initialize(Failure::Unclassified(0x80010106)));
    assert_eq!(diagnostic.message(), "call to CoInitializeEx failed: 2147549446");
    assert_eq!(diagnostic.message(), format!("call to CoInitializeEx failed: {}", 0x80010106u32));
    assert_eq!(broker.calls, vec![Call::Initialize { reserved: 0, mode: 0x2 }]);
    assert!(broker.requested.is_none());
    assert_eq!(broker.shut_down, 0);
}

#[test]
fn a_small_unknown_initialization_status_is_no_success() {
    let mut broker = MockBroker::new(2, S_OK, OBJECT, S_OK);
    let diagnostic = drive(&mut broker).unwrap_err();
    assert_eq!(diagnostic, Diagnostic::Initialize(Failure::Unclassified(2)));
    assert_eq!(diagnostic.message(), "call to CoInitializeEx failed: 2");
    assert_eq!(broker.calls.len(), 1);
}

#[test]
fn a_creation_without_object_is_fatal() {
    let mut broker = MockBroker::new(S_OK, S_OK, 0, S_OK);
    let diagnostic = drive(&mut broker).unwrap_err();
    assert_eq!(diagnostic, Diagnostic::CreateInstance(AcquireError::NoObject));
    assert!(broker.invoked.is_empty());
    assert!(broker.released.is_empty());
}

#[test]
fn a_failed_call_is_fatal_after_the_release() {
    let mut broker = MockBroker::new(S_OK, S_OK, OBJECT, 0x80004005);
    let diagnostic = drive(&mut broker).unwrap_err();
    assert_eq!(
        diagnostic,
        Diagnostic::Invoke {
            interface: Interface::IShellDispatch,
            method: Method::FileRun,
            cause: Failure::Unclassified(0x80004005),
        }
    );
    assert_eq!(diagnostic.message(), "IShellDispatch.FileRun failed: error 0x80004005");
    assert_eq!(broker.invoked, vec![(OBJECT, 16)]);
    assert_eq!(broker.released, vec![OBJECT]);
    assert_eq!(broker.shut_down, 0);
}

#[test]
fn the_alternate_success_is_fatal_at_the_creation() {
    let mut broker = MockBroker::new(S_OK, S_FALSE, OBJECT, S_OK);
    let diagnostic = drive(&mut broker).unwrap_err();
    assert_eq!(
        diagnostic,
        Diagnostic::CreateInstance(AcquireError::Rejected(Failure::Unclassified(1)))
    );
    assert_eq!(diagnostic.message(), "CoCreateInstance failed: error 0x000001");
    assert_eq!(broker.calls.len(), 2);
    assert!(broker.invoked.is_empty());
    assert!(broker.released.is_empty());
    assert_eq!(broker.shut_down, 0);
}

#[test]
fn a_failed_creation_is_fatal_whatever_it_wrote() {
    for create in [1u32, 2, REGDB_E_CLASSNOTREG, 0x80004002, 0x800703e6, 0x80004005, u32::MAX] {
        for object in [0usize, OBJECT] {
            let mut broker = MockBroker::new(S_OK, create, object, S_OK);
            assert!(drive(&mut broker).is_err());
            assert_eq!(broker.calls.len(), 2);
            assert!(broker.invoked.is_empty());
            assert!(broker.released.is_empty());
        }
    }
}

#[test]
fn the_alternate_success_is_fatal_at_the_call() {
    let mut broker = MockBroker::new(S_OK, S_OK, OBJECT, S_FALSE);
    let diagnostic = drive(&mut broker).unwrap_err();
    assert_eq!(
        diagnostic,
        Diagnostic::Invoke {
            interface: Interface::IShellDispatch,
            method: Method::FileRun,
            cause: Failure::Unclassified(1),
        }
    );
    assert_eq!(diagnostic.message(), "IShellDispatch.FileRun failed: error 0x000001");
    assert_eq!(diagnostic.message(), format!("IShellDispatch.FileRun failed: error {:#08x}", 1));
    assert_eq!(broker.invoked, vec![(OBJECT, 16)]);
    assert_eq!(broker.released, vec![OBJECT]);
    assert_eq!(broker.shut_down, 0);
}

#[test]
fn a_named_status_at_the_call_shows_as_a_number() {
    let mut broker = MockBroker::new(S_OK, S_OK, OBJECT, REGDB_E_CLASSNOTREG);
    let diagnostic = drive(&mut broker).unwrap_err();
    assert_eq!(diagnostic.message(), "IShellDispatch.FileRun failed: error 0x80040154");
    assert_eq!(broker.released, vec![OBJECT]);
}

#[test]
fn a_named_status_at_the_initialization_shows_as_a_number() {
    let mut broker = MockBroker::new(REGDB_E_CLASSNOTREG, S_OK, OBJECT, S_OK);
    let diagnostic = drive(&mut broker).unwrap_err();
    assert_eq!(diagnostic, Diagnostic::Initialize(Failure::ClassResolution));
    assert_eq!(diagnostic.message(), "call to CoInitializeEx failed: 2147746132");
    assert_eq!(broker.calls.len(), 1);
}

#[test]
fn the_steps_follow_one_another() {
    let (sequence, _) = show_run_file_dialog();
    let (sequence, action) = sequence.step(Event::Initialized(S_OK));
    assert_eq!(sequence.phase(), Phase::Creating);
    assert!(matches!(action, Action::Perform(Call::CreateInstance { .. })));
    let (sequence, action) = sequence.step(Event::Created { status: S_OK, object: 9 });
    assert_eq!(sequence.phase(), Phase::Invoking { object: 9 });
    assert_eq!(action, Action::Perform(Call::Invoke { object: 9, slot: 16 }));
    let (sequence, action) = sequence.step(Event::Invoked(S_OK));
    assert_eq!(sequence.phase(), Phase::Releasing { pending: None });
    assert_eq!(action, Action::Perform(Call::Release { object: 9, slot: 2 }));
    let (sequence, action) = sequence.step(Event::Released);
    assert_eq!(sequence.phase(), Phase::Closing);
    assert_eq!(action, Action::Perform(Call::Shutdown));
    let (sequence, action) = sequence.step(Event::ShutDown);
    assert_eq!(sequence.phase(), Phase::Finished);
    assert_eq!(action, Action::Finish);
}

#[test]
fn a_finished_sequence_stays_finished() {
    let (sequence, _) = show_run_file_dialog();
    let (sequence, _) = sequence.step(Event::Initialized(S_OK));
    let (sequence, _) = sequence.step(Event::Created { status: S_OK, object: 9 });
    let (sequence, _) = sequence.step(Event::Invoked(S_OK));
    let (sequence, _) = sequence.step(Event::Released);
    let (sequence, _) = sequence.step(Event::ShutDown);
    for event in [
        Event::Initialized(S_OK),
        Event::Created { status: S_OK, object: 9 },
        Event::Invoked(S_OK),
        Event::Released,
        Event::ShutDown,
    ] {
        let (again, _) = show_run_file_dialog();
        let (again, _) = again.step(Event::Initialized(S_OK));
        let (again, _) = again.step(Event::Created { status: S_OK, object: 9 });
        let (again, _) = again.step(Event::Invoked(S_OK));
        let (again, _) = again.step(Event::Released);
        let (again, _) = again.step(Event::ShutDown);
        let (after, action) = again.step(event);
        assert_eq!(after.phase(), Phase::Finished);
        assert_eq!(action, Action::Finish);
    }
    let (sequence, action) = sequence.step(Event::Released);
    assert_eq!(sequence.phase(), Phase::Finished);
    assert_eq!(action, Action::Finish);
}

#[test]
fn a_failed_sequence_keeps_its_diagnostic() {
    let (sequence, _) = show_run_file_dialog();
    let (sequence, first) = sequence.step(Event::Initialized(0x80070005));
    let diagnostic = Diagnostic::Initialize(Failure::Unclassified(0x80070005));
    assert_eq!(first, Action::Abort(diagnostic));
    let (sequence, again) = sequence.step(Event::Initialized(S_OK));
    assert_eq!(again, Action::Abort(diagnostic));
    let (sequence, again) = sequence.step(Event::Created { status: S_OK, object: 9 });
    assert_eq!(again, Action::Abort(diagnostic));
    assert_eq!(sequence.phase(), Phase::Aborted(diagnostic));
}

#[test]
fn an_object_created_before_the_initialization_is_a_usage_error() {
    let (sequence, _) = show_run_file_dialog();
    let (sequence, action) = sequence.step(Event::Created { status: S_OK, object: 9 });
    let diagnostic = Diagnostic::Usage(UsageError::OutOfOrder {
        awaited: Operation::Initialize,
        answered: Operation::CreateInstance,
    });
    assert_eq!(action, Action::Abort(diagnostic));
    assert_eq!(sequence.phase(), Phase::Aborted(diagnostic));
    assert_eq!(
        diagnostic.message(),
        "usage error: CoCreateInstance answered while awaiting CoInitializeEx"
    );
}

#[test]
fn a_misplaced_answer_while_creating_is_a_usage_error() {
    let (sequence, _) = show_run_file_dialog();
    let (sequence, _) = sequence.step(Event::Initialized(S_OK));
    let (_, action) = sequence.step(Event::Invoked(S_OK));
    assert_eq!(
        action,
        Action::Abort(Diagnostic::Usage(UsageError::OutOfOrder {
            awaited: Operation::CreateInstance,
            answered: Operation::Invoke,
        }))
    );
}

#[test]
fn a_held_object_is_released_before_a_usage_error_is_reported() {
    let (sequence, _) = show_run_file_dialog();
    let (sequence, _) = sequence.step(Event::Initialized(S_OK));
    let (sequence, _) = sequence.step(Event::Created { status: S_OK, object: 9 });
    let (sequence, action) = sequence.step(Event::ShutDown);
    let diagnostic = Diagnostic::Usage(UsageError::OutOfOrder {
        awaited: Operation::Invoke,
        answered: Operation::Shutdown,
    });
    assert_eq!(action, Action::Perform(Call::Release { object: 9, slot: 2 }));
    assert_eq!(sequence.phase(), Phase::Releasing { pending: Some(diagnostic) });
    let (sequence, action) = sequence.step(Event::Released);
    assert_eq!(action, Action::Abort(diagnostic));
    assert_eq!(sequence.phase(), Phase::Aborted(diagnostic));
}

#[test]
fn a_misplaced_answer_after_the_release_is_a_usage_error() {
    let (sequence, _) = show_run_file_dialog();
    let (sequence, _) = sequence.step(Event::Initialized(S_OK));
    let (sequence, _) = sequence.step(Event::Created { status: S_OK, object: 9 });
    let (sequence, _) = sequence.step(Event::Invoked(S_OK));
    let (_, action) = sequence.step(Event::Invoked(S_OK));
    assert_eq!(
        action,
        Action::Abort(Diagnostic::Usage(UsageError::OutOfOrder {
            awaited: Operation::Release,
            answered: Operation::Invoke,
        }))
    );
}

#[test]
fn a_misplaced_answer_while_closing_is_a_usage_error() {
    let (sequence, _) = show_run_file_dialog();
    let (sequence, _) = sequence.step(Event::Initialized(S_OK));
    let (sequence, _) = sequence.step(Event::Created { status: S_OK, object: 9 });
    let (sequence, _) = sequence.step(Event::Invoked(S_OK));
    let (sequence, _) = sequence.step(Event::Released);
    let (_, action) = sequence.step(Event::Released);
    assert_eq!(
        action,
        Action::Abort(Diagnostic::Usage(UsageError::OutOfOrder {
            awaited: Operation::Shutdown,
            answered: Operation::Release,
        }))
    );
}

#[test]
fn whatever_the_answers_an_object_is_released_once_and_not_used_afterwards() {
    let statuses = [S_OK, S_FALSE, REGDB_E_CLASSNOTREG, 0x80004002, 0x800703e6, 0x80004005, 7];
    let objects = [0usize, OBJECT];
    for initialize in statuses {
        for create in statuses {
            for object in objects {
                for invoke in statuses {
                    let mut broker = MockBroker::new(initialize, create, object, invoke);
                    let outcome = drive(&mut broker);
                    assert_eq!(broker.released.len(), broker.invoked.len());
                    assert!(broker.released.len() <= 1);
                    let begun = initialize == S_OK || initialize == S_FALSE;
                    let acquired = begun && create == S_OK && object != 0;
                    assert_eq!(broker.released.len() == 1, acquired);
                    assert_eq!(outcome.is_ok(), acquired && invoke == S_OK);
                    assert_eq!(broker.shut_down == 1, outcome.is_ok());
                }
            }
        }
    }
}

#[test]
fn events_answer_their_operations() {
    assert_eq!(Event::Initialized(0).operation(), Operation::Initialize);
    assert_eq!(Event::Created { status: 0, object: 1 }.operation(), Operation::CreateInstance);
    assert_eq!(Event::Invoked(0).operation(), Operation::Invoke);
    assert_eq!(Event::Released.operation(), Operation::Release);
    assert_eq!(Event::ShutDown.operation(), Operation::Shutdown);
}
