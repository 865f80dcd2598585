//! The sequence that shows the "Run" dialog: initialize the subsystem, create
//! the shell's application object, call its `FileRun` entry point, release
//! the object, shut the subsystem down. The library decides each step from
//! the answer to the step before; the caller makes the calls.

use vstd::prelude::*;
use vstd::pervasive::unreached;
use crate::broker::{
    Call,
    Operation,
    Session,
    UsageError,
    CLSCTX_INPROC_SERVER,
    COINIT_APARTMENTTHREADED,
};
use crate::guid::{clsid_shapp, clsid_shapp_spec};
use crate::handle::{acquire_spec, ObjectHandle};
use crate::report::Diagnostic;
use crate::status::{classify_spec, failure_of, failure_of_spec, Status, HRESULT, S_FALSE, S_OK};
use crate::table::{lemma_slot_of, Interface, Method};
use crate::types::ComPtr;

verus! {

/// The answer of the foreign side to the call made last.
#[derive(Clone, Copy, Debug, PartialEq, Eq, Structural)]
pub enum Event {
    /// Initialization returned this status.
    Initialized(HRESULT),
    /// Create-instance returned this status and wrote this address.
    Created { status: HRESULT, object: ComPtr },
    /// The call through the object's table returned this status.
    Invoked(HRESULT),
    /// The object's reference was dropped.
    Released,
    /// The subsystem was shut down.
    ShutDown,
}

/// What the caller is to do next.
#[derive(Clone, Copy, Debug, PartialEq, Eq)]
pub enum Action {
    /// Make this call and report its answer.
    Perform(Call),
    /// The sequence is complete.
    Finish,
    /// The sequence has failed: report the diagnostic and stop.
    Abort(Diagnostic),
}

/// Where the sequence stands.
#[derive(Clone, Copy, Debug, PartialEq, Eq, Structural)]
pub enum Phase {
    /// Initialization is under way.
    Initializing,
    /// A session is open and the object is being created.
    Creating,
    /// The object is held and its `FileRun` entry point is being called.
    Invoking { object: ComPtr },
    /// The object's reference is being dropped; `pending` is the failure to
    /// report afterwards, if there is one.
    Releasing { pending: Option<Diagnostic> },
    /// The subsystem is being shut down.
    Closing,
    /// The sequence is complete.
    Finished,
    /// The sequence has failed.
    Aborted(Diagnostic),
}

impl Event {
    /// The operation that the event answers.
    pub open spec fn operation_spec(self) -> Operation {
        match self {
            Event::Initialized(_) => Operation::Initialize,
            Event::Created { .. } => Operation::CreateInstance,
            Event::Invoked(_) => Operation::Invoke,
            Event::Released => Operation::Release,
            Event::ShutDown => Operation::Shutdown,
        }
    }

    /// The operation that the event answers.
    #[verifier::when_used_as_spec(operation_spec)]
    pub fn operation(self) -> (operation: Operation)
        ensures
            operation == self.operation_spec(),
    {
        match self {
            Event::Initialized(_) => Operation::Initialize,
            Event::Created { .. } => Operation::CreateInstance,
            Event::Invoked(_) => Operation::Invoke,
            Event::Released => Operation::Release,
            Event::ShutDown => Operation::Shutdown,
        }
    }
}

impl Phase {
    /// The operation whose answer the phase awaits, if it awaits one.
    pub open spec fn awaited(self) -> Option<Operation> {
        match self {
            Phase::Initializing => Some(Operation::Initialize),
            Phase::Creating => Some(Operation::CreateInstance),
            Phase::Invoking { .. } => Some(Operation::Invoke),
            Phase::Releasing { .. } => Some(Operation::Release),
            Phase::Closing => Some(Operation::Shutdown),
            Phase::Finished => None,
            Phase::Aborted(_) => None,
        }
    }

    /// Whether the sequence has ended.
    pub open spec fn is_terminal(self) -> bool {
        self is Finished || self is Aborted
    }

    /// How far the sequence has come: every step moves to a later phase.
    pub open spec fn rank(self) -> nat {
        match self {
            Phase::Initializing => 0,
            Phase::Creating => 1,
            Phase::Invoking { .. } => 2,
            Phase::Releasing { .. } => 3,
            Phase::Closing => 4,
            Phase::Finished => 5,
            Phase::Aborted(_) => 5,
        }
    }

    /// How many object handles are held in the phase.
    pub open spec fn held(self) -> nat {
        if self is Invoking {
            1
        } else {
            0
        }
    }
}

/// The first call of the sequence.
pub open spec fn first_call() -> Call {
    Call::Initialize { reserved: 0, mode: COINIT_APARTMENTTHREADED }
}

/// The call that creates the shell's application object.
pub open spec fn create_call() -> Call {
    Call::CreateInstance {
        class_id: clsid_shapp_spec(),
        outer: 0,
        context: CLSCTX_INPROC_SERVER,
        interface_id: Interface::IShellDispatch.iid_spec(),
    }
}

/// The diagnostic for an answer to another operation than the one awaited.
pub open spec fn out_of_order(awaited: Operation, event: Event) -> Diagnostic {
    Diagnostic::Usage(UsageError::OutOfOrder { awaited, answered: event.operation_spec() })
}

/// The step of the sequence: the phase that follows `phase` on `event`, and
/// what the caller is to do then.
///
/// The initialization succeeds with either success outcome; the creation and
/// the call of `FileRun` succeed with `S_OK` alone. Any failure ends the
/// sequence. While the object is held, a failure is
/// reported only after the object has been released. An answer to another
/// operation than the one awaited is a usage error. A sequence that has ended
/// stays as it is.
pub open spec fn next_spec(phase: Phase, event: Event) -> (Phase, Action) {
    match phase {
        Phase::Initializing => match event {
            Event::Initialized(status) => match classify_spec(status) {
                Status::Failure(cause) => abort(Diagnostic::Initialize(cause)),
                _ => (Phase::Creating, Action::Perform(create_call())),
            },
            _ => abort(out_of_order(Operation::Initialize, event)),
        },
        Phase::Creating => match event {
            Event::Created { status, object } => match acquire_spec(status, object) {
                Ok(()) => (
                    Phase::Invoking { object },
                    Action::Perform(Call::Invoke { object, slot: 16 }),
                ),
                Err(cause) => abort(Diagnostic::CreateInstance(cause)),
            },
            _ => abort(out_of_order(Operation::CreateInstance, event)),
        },
        Phase::Invoking { object } => {
            let pending = match event {
                Event::Invoked(status) => match failure_of_spec(status) {
                    Some(cause) => Some(
                        Diagnostic::Invoke {
                            interface: Interface::IShellDispatch,
                            method: Method::FileRun,
                            cause,
                        },
                    ),
                    None => None,
                },
                _ => Some(out_of_order(Operation::Invoke, event)),
            };
            (Phase::Releasing { pending }, Action::Perform(Call::Release { object, slot: 2 }))
        },
        Phase::Releasing { pending } => match pending {
            Some(diagnostic) => abort(diagnostic),
            None => match event {
                Event::Released => (Phase::Closing, Action::Perform(Call::Shutdown)),
                _ => abort(out_of_order(Operation::Release, event)),
            },
        },
        Phase::Closing => match event {
            Event::ShutDown => (Phase::Finished, Action::Finish),
            _ => abort(out_of_order(Operation::Shutdown, event)),
        },
        Phase::Finished => (Phase::Finished, Action::Finish),
        Phase::Aborted(diagnostic) => abort(diagnostic),
    }
}

/// The end of a sequence that has failed.
pub open spec fn abort(diagnostic: Diagnostic) -> (Phase, Action) {
    (Phase::Aborted(diagnostic), Action::Abort(diagnostic))
}

/// Begins the sequence that shows the "Run" dialog: nothing has happened yet,
/// and the first call to make is the initialization.
pub fn show_run_file_dialog() -> (begun: (RunDialog, Action))
    ensures
        begun.0@ == Phase::Initializing,
        begun.1 == Action::Perform(first_call()),
{
    (RunDialog::new(), Action::Perform(Session::initialize_call()))
}

/// What the sequence holds in each phase.
enum Stage {
    Initializing,
    Creating { session: Session },
    Invoking { session: Session, handle: ObjectHandle },
    Releasing { session: Session, pending: Option<Diagnostic> },
    Closing,
    Finished,
    Aborted(Diagnostic),
}

/// The sequence that shows the "Run" dialog, as far as it has come.
pub struct RunDialog {
    stage: Stage,
}

impl View for RunDialog {
    type V = Phase;

    /// The phase in which the sequence stands.
    closed spec fn view(&self) -> Phase {
        match self.stage {
            Stage::Initializing => Phase::Initializing,
            Stage::Creating { .. } => Phase::Creating,
            Stage::Invoking { handle, .. } => Phase::Invoking { object: handle.object_spec() },
            Stage::Releasing { pending, .. } => Phase::Releasing { pending },
            Stage::Closing => Phase::Closing,
            Stage::Finished => Phase::Finished,
            Stage::Aborted(diagnostic) => Phase::Aborted(diagnostic),
        }
    }
}

impl RunDialog {
    /// The session counts exactly the handle that the sequence holds, and
    /// that handle is one of the shell's dispatch interface.
    #[verifier::type_invariant]
    spec fn session_counts_handle(self) -> bool {
        match self.stage {
            Stage::Creating { session } => session.live_spec() == 0,
            Stage::Invoking { session, handle } => session.live_spec() == 1 && session.owns(
                &handle,
            ) && handle.wf() && handle.interface_spec() == Interface::IShellDispatch,
            Stage::Releasing { session, .. } => session.live_spec() == 0,
            _ => true,
        }
    }

    /// A sequence of which the first call is under way.
    fn new() -> (sequence: RunDialog)
        ensures
            sequence@ == Phase::Initializing,
    {
        RunDialog { stage: Stage::Initializing }
    }

    /// The phase in which the sequence stands.
    pub fn phase(&self) -> (phase: Phase)
        ensures
            phase == self@,
    {
        match &self.stage {
            Stage::Initializing => Phase::Initializing,
            Stage::Creating { .. } => Phase::Creating,
            Stage::Invoking { handle, .. } => Phase::Invoking { object: handle.object() },
            Stage::Releasing { pending, .. } => Phase::Releasing { pending: *pending },
            Stage::Closing => Phase::Closing,
            Stage::Finished => Phase::Finished,
            Stage::Aborted(diagnostic) => Phase::Aborted(*diagnostic),
        }
    }

    /// Takes the answer to the call made last and decides what follows.
    pub fn step(self, event: Event) -> (next: (RunDialog, Action))
        ensures
            (next.0@, next.1) == next_spec(self@, event),
    {
        proof {
            use_type_invariant(&self);
        }
        match self.stage {
            Stage::Initializing => match event {
                Event::Initialized(status) => match Session::begin(status) {
                    Err(cause) => Self::give_up(Diagnostic::Initialize(cause)),
                    Ok(session) => {
                        let call = session.create_instance_call(
                            clsid_shapp(),
                            Interface::IShellDispatch,
                        );
                        (RunDialog { stage: Stage::Creating { session } }, Action::Perform(call))
                    },
                },
                _ => Self::give_up(Self::misplaced(Operation::Initialize, event)),
            },
            Stage::Creating { session } => match event {
                Event::Created { status, object } => {
                    let mut session = session;
                    match session.acquire(Interface::IShellDispatch, status, object) {
                        Err(cause) => Self::give_up(Diagnostic::CreateInstance(cause)),
                        Ok(handle) => {
                            proof {
                                lemma_file_run_slot();
                            }
                            let call = match handle.invoke(Method::FileRun) {
                                Some(call) => call,
                                None => unreached(),
                            };
                            (
                                RunDialog { stage: Stage::Invoking { session, handle } },
                                Action::Perform(call),
                            )
                        },
                    }
                },
                _ => Self::give_up(Self::misplaced(Operation::CreateInstance, event)),
            },
            Stage::Invoking { session, handle } => {
                let pending = match event {
                    Event::Invoked(status) => match failure_of(status) {
                        Some(cause) => Some(
                            Diagnostic::Invoke {
                                interface: Interface::IShellDispatch,
                                method: Method::FileRun,
                                cause,
                            },
                        ),
                        None => None,
                    },
                    _ => Some(Self::misplaced(Operation::Invoke, event)),
                };
                let mut session = session;
                let call = session.release(handle);
                (RunDialog { stage: Stage::Releasing { session, pending } }, Action::Perform(call))
            },
            Stage::Releasing { session, pending } => match pending {
                Some(diagnostic) => Self::give_up(diagnostic),
                None => match event {
                    Event::Released => {
                        let call = match session.end() {
                            Ok(call) => call,
                            Err(_) => unreached(),
                        };
                        (RunDialog { stage: Stage::Closing }, Action::Perform(call))
                    },
                    _ => Self::give_up(Self::misplaced(Operation::Release, event)),
                },
            },
            Stage::Closing => match event {
                Event::ShutDown => (RunDialog { stage: Stage::Finished }, Action::Finish),
                _ => Self::give_up(Self::misplaced(Operation::Shutdown, event)),
            },
            Stage::Finished => (RunDialog { stage: Stage::Finished }, Action::Finish),
            Stage::Aborted(diagnostic) => Self::give_up(diagnostic),
        }
    }

    /// The end of a sequence that has failed.
    fn give_up(diagnostic: Diagnostic) -> (ended: (RunDialog, Action))
        ensures
            (ended.0@, ended.1) == abort(diagnostic),
    {
        (RunDialog { stage: Stage::Aborted(diagnostic) }, Action::Abort(diagnostic))
    }

    /// The diagnostic for an answer to another operation than the one
    /// awaited.
    fn misplaced(awaited: Operation, event: Event) -> (diagnostic: Diagnostic)
        ensures
            diagnostic == out_of_order(awaited, event),
    {
        Diagnostic::Usage(UsageError::OutOfOrder { awaited, answered: event.operation() })
    }
}

/// The shell's dispatch interface holds `FileRun` in slot 16, and the entry
/// point can be called with the object alone.
pub proof fn lemma_file_run_slot()
    ensures
        Interface::IShellDispatch.slot_of_spec(Method::FileRun) == Some(16int),
        crate::handle::invocable(Interface::IShellDispatch, Method::FileRun),
{
    reveal_with_fuel(Interface::layout, 3);
    assert(Interface::IShellDispatch.layout().len() == 30);
    assert(Interface::IShellDispatch.layout()[16] == Method::FileRun);
    lemma_slot_of(Interface::IShellDispatch, 16);
}

/// The phase reached and the actions asked for when the answers `events`
/// arrive one after the other, beginning in `phase`.
pub open spec fn run_spec(phase: Phase, events: Seq<Event>) -> (Phase, Seq<Action>)
    decreases events.len(),
{
    if events.len() == 0 {
        (phase, Seq::empty())
    } else {
        let first = next_spec(phase, events[0]);
        let rest = run_spec(first.0, events.drop_first());
        (rest.0, seq![first.1] + rest.1)
    }
}

/// Whether the action asks for a call of the operation.
pub open spec fn performs(action: Action, operation: Operation) -> bool {
    action matches Action::Perform(call) && call.operation_spec() == operation
}

/// How many of the actions ask for a call of the operation.
pub open spec fn performed(actions: Seq<Action>, operation: Operation) -> nat
    decreases actions.len(),
{
    if actions.len() == 0 {
        0
    } else {
        performed(actions.drop_first(), operation) + if performs(actions[0], operation) {
            1nat
        } else {
            0nat
        }
    }
}

/// The sequence is strictly linear. A step from a phase that has not ended
/// leads to the next phase or to the end, never back and never to the same
/// phase; a call asked for is the one whose answer the phase reached awaits;
/// a sequence that has ended stays where it is and asks for no call.
pub proof fn lemma_step_advances(phase: Phase, event: Event)
    ensures
        ({
            let next = next_spec(phase, event);
            &&& phase.is_terminal() ==> next.0 == phase && !(next.1 is Perform)
            &&& !phase.is_terminal() ==> next.0.rank() == phase.rank() + 1 || next.0 is Aborted
            &&& next.1 matches Action::Perform(call) ==> next.0.rank() == phase.rank() + 1
                && next.0.awaited() == Some(call.operation_spec())
            &&& next.1 is Finish <==> next.0 is Finished
            &&& forall|diagnostic: Diagnostic|
                next.1 == Action::Abort(diagnostic) <==> next.0 == Phase::Aborted(diagnostic)
        }),
{
}

/// Whether the event is the answer of a create-instance call that yields a
/// handle.
pub open spec fn acquires(event: Event) -> bool {
    event matches Event::Created { status, object } && acquire_spec(status, object) is Ok
}

/// A step accounts for the object handle. The call through the object's
/// table is asked for exactly when a create-instance call has yielded the
/// handle; the release is asked for exactly when the handle is held, of the
/// object held, whatever the answer was; and with the release the handle is
/// gone.
pub proof fn lemma_step_accounts(phase: Phase, event: Event)
    ensures
        ({
            let next = next_spec(phase, event);
            &&& performs(next.1, Operation::Invoke) <==> phase is Creating && acquires(event)
            &&& performs(next.1, Operation::Invoke) ==> event is Created && event->object != 0
                && next.0 == (Phase::Invoking { object: event->object }) && next.1
                == Action::Perform(Call::Invoke { object: event->object, slot: 16 })
            &&& performs(next.1, Operation::Release) <==> phase is Invoking
            &&& phase matches Phase::Invoking { object } ==> next.0 is Releasing && next.1
                == Action::Perform(Call::Release { object, slot: 2 })
            &&& next.0.held() + (if performs(next.1, Operation::Release) {
                1nat
            } else {
                0nat
            }) == phase.held() + (if performs(next.1, Operation::Invoke) {
                1nat
            } else {
                0nat
            })
        }),
{
}

/// Every handle acquired is released exactly once, on every path. Whatever
/// answers arrive, the releases asked for and the handle still held add up to
/// the handle held at the start and the acquisitions since; at most one
/// object is ever acquired; and once the sequence has ended no handle is
/// held.
pub proof fn lemma_handles_balance(phase: Phase, events: Seq<Event>)
    ensures
        ({
            let end = run_spec(phase, events);
            let invoked = performed(end.1, Operation::Invoke);
            let released = performed(end.1, Operation::Release);
            &&& released + end.0.held() == phase.held() + invoked
            &&& invoked <= 1
            &&& phase.rank() >= 2 ==> invoked == 0
            &&& phase.rank() >= 3 ==> released == 0
            &&& end.0.is_terminal() ==> released == phase.held() + invoked
            &&& end.0.rank() >= phase.rank()
            &&& end.1.len() == events.len()
        }),
    decreases events.len(),
{
    if events.len() > 0 {
        let first = next_spec(phase, events[0]);
        let rest = run_spec(first.0, events.drop_first());
        lemma_step_advances(phase, events[0]);
        lemma_step_accounts(phase, events[0]);
        lemma_handles_balance(first.0, events.drop_first());
        let actions = seq![first.1] + rest.1;
        assert(actions.drop_first() =~= rest.1);
        assert(actions[0] == first.1);
    }
}

/// From its start, the sequence releases exactly what it acquired, which is
/// one object at most, and it has ended once five answers have arrived.
pub proof fn lemma_sequence_from_start(events: Seq<Event>)
    ensures
        ({
            let end = run_spec(Phase::Initializing, events);
            let invoked = performed(end.1, Operation::Invoke);
            let released = performed(end.1, Operation::Release);
            &&& released <= invoked <= 1
            &&& end.0.is_terminal() ==> released == invoked
            &&& events.len() >= 5 ==> end.0.is_terminal()
        }),
{
    lemma_handles_balance(Phase::Initializing, events);
    if events.len() >= 5 {
        lemma_ends_in_time(Phase::Initializing, events);
    }
}

/// A sequence in a phase of rank `r` has ended after `5 - r` answers.
pub proof fn lemma_ends_in_time(phase: Phase, events: Seq<Event>)
    requires
        phase.rank() + events.len() >= 5,
    ensures
        run_spec(phase, events).0.is_terminal(),
    decreases events.len(),
{
    if events.len() > 0 {
        lemma_step_advances(phase, events[0]);
        lemma_ends_in_time(next_spec(phase, events[0]).0, events.drop_first());
    }
}

/// Failure is final: a sequence that has failed stays failed with the same
/// diagnostic, whatever arrives, and asks for nothing but to stop.
pub proof fn lemma_abort_is_final(diagnostic: Diagnostic, events: Seq<Event>)
    ensures
        run_spec(Phase::Aborted(diagnostic), events).0 == Phase::Aborted(diagnostic),
        run_spec(Phase::Aborted(diagnostic), events).1.len() == events.len(),
        forall|i: int|
            0 <= i < events.len() ==> run_spec(Phase::Aborted(diagnostic), events).1[i]
                == Action::Abort(diagnostic),
    decreases events.len(),
{
    if events.len() > 0 {
        lemma_abort_is_final(diagnostic, events.drop_first());
    }
}

/// Once the object has been released it is never used again: from the
/// release on, no call through the object's table and no second release is
/// asked for.
pub proof fn lemma_no_use_after_release(phase: Phase, events: Seq<Event>)
    requires
        phase.rank() >= 3,
    ensures
        performed(run_spec(phase, events).1, Operation::Invoke) == 0,
        performed(run_spec(phase, events).1, Operation::Release) == 0,
{
    lemma_handles_balance(phase, events);
}

/// What a foreign side returns that answers every call of one kind alike.
#[derive(Clone, Copy, Debug, PartialEq, Eq, Structural)]
pub struct Answers {
    /// The status that the initialization returns.
    pub initialize: HRESULT,
    /// The status that create-instance returns.
    pub create: HRESULT,
    /// The address that create-instance writes.
    pub object: ComPtr,
    /// The status that the call of `FileRun` returns.
    pub invoke: HRESULT,
}

impl Answers {
    /// The answer to a call.
    pub open spec fn to(self, call: Call) -> Event {
        match call {
            Call::Initialize { .. } => Event::Initialized(self.initialize),
            Call::CreateInstance { .. } => Event::Created {
                status: self.create,
                object: self.object,
            },
            Call::Invoke { .. } => Event::Invoked(self.invoke),
            Call::Release { .. } => Event::Released,
            Call::Shutdown => Event::ShutDown,
        }
    }

    /// How the sequence ends against these answers: complete, or failed
    /// with the diagnostic of the first call that failed.
    pub open spec fn outcome(self) -> Result<(), Diagnostic> {
        match classify_spec(self.initialize) {
            Status::Failure(cause) => Err(Diagnostic::Initialize(cause)),
            _ => match acquire_spec(self.create, self.object) {
                Err(cause) => Err(Diagnostic::CreateInstance(cause)),
                Ok(()) => match failure_of_spec(self.invoke) {
                    Some(cause) => Err(
                        Diagnostic::Invoke {
                            interface: Interface::IShellDispatch,
                            method: Method::FileRun,
                            cause,
                        },
                    ),
                    None => Ok(()),
                },
            },
        }
    }

    /// Everything that the caller is asked to do against these answers, from
    /// the first call to the end of the sequence.
    pub open spec fn script(self) -> Seq<Action> {
        let release = Action::Perform(Call::Release { object: self.object, slot: 2 });
        let invoke = Action::Perform(Call::Invoke { object: self.object, slot: 16 });
        match self.outcome() {
            Ok(()) => seq![
                Action::Perform(first_call()),
                Action::Perform(create_call()),
                invoke,
                release,
                Action::Perform(Call::Shutdown),
                Action::Finish,
            ],
            Err(Diagnostic::Invoke { interface, method, cause }) => seq![
                Action::Perform(first_call()),
                Action::Perform(create_call()),
                invoke,
                release,
                Action::Abort(Diagnostic::Invoke { interface, method, cause }),
            ],
            Err(Diagnostic::CreateInstance(cause)) => seq![
                Action::Perform(first_call()),
                Action::Perform(create_call()),
                Action::Abort(Diagnostic::CreateInstance(cause)),
            ],
            Err(diagnostic) => seq![Action::Perform(first_call()), Action::Abort(diagnostic)],
        }
    }
}

/// The actions that follow one another when every call asked for is made and
/// answered by `answers`: from `action`, asked for in `phase`, until the
/// sequence ends or `fuel` calls have been made.
pub open spec fn drive_spec(phase: Phase, action: Action, answers: Answers, fuel: nat) -> Seq<
    Action,
>
    decreases fuel,
{
    match action {
        Action::Perform(call) => if fuel == 0 {
            seq![action]
        } else {
            let next = next_spec(phase, answers.to(call));
            seq![action] + drive_spec(next.0, next.1, answers, (fuel - 1) as nat)
        },
        _ => seq![action],
    }
}

/// The outcome of the sequence. Whatever the foreign side returns, the
/// sequence ends, complete or failed, after five calls at most. It is
/// complete exactly when the initialization returned one of its two success
/// outcomes, the creation returned `S_OK` and wrote an object, and the call
/// of `FileRun` returned `S_OK`. Otherwise it fails with the diagnostic of
/// the first call that failed, and the actions asked for are exactly those of
/// the script: after a failed initialization nothing more; after a failed
/// creation no call through the object's table and no release; after a
/// failed call of `FileRun` the release, and no shutdown.
pub proof fn lemma_outcome(answers: Answers)
    ensures
        drive_spec(Phase::Initializing, Action::Perform(first_call()), answers, 5)
            == answers.script(),
        answers.script().last() == match answers.outcome() {
            Ok(()) => Action::Finish,
            Err(diagnostic) => Action::Abort(diagnostic),
        },
        answers.outcome() is Ok <==> (answers.initialize == S_OK || answers.initialize == S_FALSE)
            && answers.create == S_OK && answers.object != 0 && answers.invoke == S_OK,
        acquire_spec(answers.create, answers.object) is Ok <==> answers.create == S_OK
            && answers.object != 0,
        forall|i: int|
            0 <= i < answers.script().len() && (performs(answers.script()[i], Operation::Invoke)
                || performs(answers.script()[i], Operation::Release)) ==> classify_spec(
                answers.initialize,
            ).is_success_spec() && answers.create == S_OK && answers.object != 0,
        performed(answers.script(), Operation::Invoke) == performed(
            answers.script(),
            Operation::Release,
        ),
{
    reveal_with_fuel(drive_spec, 7);
    let script = answers.script();
    assert(drive_spec(Phase::Initializing, Action::Perform(first_call()), answers, 5) =~= script);
    lemma_script_balance(answers);
}

/// The script asks for as many releases as calls through the object's
/// table: one of each where an object was acquired, and none elsewhere.
pub proof fn lemma_script_balance(answers: Answers)
    ensures
        performed(answers.script(), Operation::Invoke) == performed(
            answers.script(),
            Operation::Release,
        ),
        performed(answers.script(), Operation::Invoke) == if classify_spec(
            answers.initialize,
        ).is_success_spec() && acquire_spec(answers.create, answers.object) is Ok {
            1nat
        } else {
            0nat
        },
        performed(answers.script(), Operation::Shutdown) == if answers.outcome() is Ok {
            1nat
        } else {
            0nat
        },
{
    reveal_with_fuel(performed, 8);
    let s0 = answers.script();
    let s1 = s0.drop_first();
    let s2 = s1.drop_first();
    let s3 = s2.drop_first();
    let s4 = s3.drop_first();
    let s5 = s4.drop_first();
    let s6 = s5.drop_first();
    assert(s0.len() >= 2);
    if s0.len() == 2 {
        assert(s2.len() == 0);
    } else if s0.len() == 3 {
        assert(s3.len() == 0);
    } else if s0.len() == 5 {
        assert(s5.len() == 0);
    } else {
        assert(s6.len() == 0);
    }
}

} // verus!
