//! Status codes returned by the foreign side, and their classification.

use vstd::prelude::*;

verus! {

/// A raw 32-bit status code as the foreign side returns it.
pub type HRESULT = u32;

/// The operation completed.
pub const S_OK: HRESULT = 0x00000000;

/// The operation completed with the alternate, informational outcome.
pub const S_FALSE: HRESULT = 0x00000001;

/// The class does not support aggregation.
pub const CLASS_E_NOAGGREGATION: HRESULT = 0x80040110;

/// The object does not implement the requested interface.
pub const E_NOINTERFACE: HRESULT = 0x80004002;

/// No implementation is registered for the class identifier.
pub const REGDB_E_CLASSNOTREG: HRESULT = 0x80040154;

/// The interface identifier is not registered.
pub const REGDB_E_IIDNOTREG: HRESULT = 0x80040155;

/// The subsystem is already initialized with another threading mode.
pub const RPC_E_CHANGED_MODE: HRESULT = 0x80010106;

/// Invalid access to a memory location, as the broker reports it on a thread
/// whose private stack data has been overwritten.
pub const E_NOACCESS: HRESULT = 0x800703e6;

/// Why a foreign call failed.
#[derive(Clone, Copy, Debug, PartialEq, Eq, Structural)]
pub enum Failure {
    /// The class identifier has no registered implementation.
    ClassResolution,
    /// The object exists but does not implement the requested interface.
    InterfaceMismatch,
    /// The broker was denied access to memory it needs.
    AccessDenied,
    /// A status that has no name among the failures, kept as it came.
    Unclassified(HRESULT),
}

/// What a raw status code means.
#[derive(Clone, Copy, Debug, PartialEq, Eq, Structural)]
pub enum Status {
    Success,
    SuccessAlternate,
    Failure(Failure),
}

/// The codes that have a meaning of their own in this library.
pub open spec fn is_known_code(raw: HRESULT) -> bool {
    raw == S_OK || raw == S_FALSE || raw == REGDB_E_CLASSNOTREG || raw == E_NOINTERFACE || raw
        == E_NOACCESS
}

/// The meaning of each raw code: the documented success values first, then
/// the named failures, and every other value as an unclassified failure that
/// carries the value itself.
pub open spec fn classify_spec(raw: HRESULT) -> Status {
    if raw == S_OK {
        Status::Success
    } else if raw == S_FALSE {
        Status::SuccessAlternate
    } else if raw == REGDB_E_CLASSNOTREG {
        Status::Failure(Failure::ClassResolution)
    } else if raw == E_NOINTERFACE {
        Status::Failure(Failure::InterfaceMismatch)
    } else if raw == E_NOACCESS {
        Status::Failure(Failure::AccessDenied)
    } else {
        Status::Failure(Failure::Unclassified(raw))
    }
}

impl Failure {
    /// An unclassified failure never carries the code of success nor that of
    /// a named failure. It may carry the alternate success, which is a
    /// failure wherever only `S_OK` is documented as success.
    pub open spec fn wf(self) -> bool {
        self matches Failure::Unclassified(raw) ==> raw != S_OK && raw != REGDB_E_CLASSNOTREG
            && raw != E_NOINTERFACE && raw != E_NOACCESS
    }

    /// The raw code that this failure stands for.
    pub open spec fn code_spec(self) -> HRESULT {
        match self {
            Failure::ClassResolution => REGDB_E_CLASSNOTREG,
            Failure::InterfaceMismatch => E_NOINTERFACE,
            Failure::AccessDenied => E_NOACCESS,
            Failure::Unclassified(raw) => raw,
        }
    }

    /// The raw code that this failure stands for.
    #[verifier::when_used_as_spec(code_spec)]
    pub fn code(self) -> (raw: HRESULT)
        ensures
            raw == self.code_spec(),
    {
        match self {
            Failure::ClassResolution => REGDB_E_CLASSNOTREG,
            Failure::InterfaceMismatch => E_NOINTERFACE,
            Failure::AccessDenied => E_NOACCESS,
            Failure::Unclassified(raw) => raw,
        }
    }
}

impl Status {
    /// A failure among the statuses is well formed and does not carry the
    /// alternate success, which has a status of its own.
    pub open spec fn wf(self) -> bool {
        self matches Status::Failure(failure) ==> failure.wf() && failure.code_spec() != S_FALSE
    }

    /// The raw code that this status stands for.
    pub open spec fn code_spec(self) -> HRESULT {
        match self {
            Status::Success => S_OK,
            Status::SuccessAlternate => S_FALSE,
            Status::Failure(failure) => failure.code_spec(),
        }
    }

    /// Both success outcomes count as success.
    pub open spec fn is_success_spec(self) -> bool {
        self is Success || self is SuccessAlternate
    }

    /// The raw code that this status stands for.
    #[verifier::when_used_as_spec(code_spec)]
    pub fn code(self) -> (raw: HRESULT)
        ensures
            raw == self.code_spec(),
    {
        match self {
            Status::Success => S_OK,
            Status::SuccessAlternate => S_FALSE,
            Status::Failure(failure) => failure.code(),
        }
    }

    /// Whether the status is one of the two success outcomes.
    #[verifier::when_used_as_spec(is_success_spec)]
    pub fn is_success(self) -> (yes: bool)
        ensures
            yes == self.is_success_spec(),
    {
        match self {
            Status::Success => true,
            Status::SuccessAlternate => true,
            Status::Failure(_) => false,
        }
    }
}

/// Classifies a raw status code. Every 32-bit value has exactly one meaning;
/// a value outside the known set is a failure that carries the value.
pub fn classify(raw: HRESULT) -> (status: Status)
    ensures
        status == classify_spec(raw),
        status.wf(),
        status.code_spec() == raw,
        status.is_success_spec() <==> (raw == S_OK || raw == S_FALSE),
{
    if raw == S_OK {
        Status::Success
    } else if raw == S_FALSE {
        Status::SuccessAlternate
    } else if raw == REGDB_E_CLASSNOTREG {
        Status::Failure(Failure::ClassResolution)
    } else if raw == E_NOINTERFACE {
        Status::Failure(Failure::InterfaceMismatch)
    } else if raw == E_NOACCESS {
        Status::Failure(Failure::AccessDenied)
    } else {
        Status::Failure(Failure::Unclassified(raw))
    }
}

/// What is wrong with a status at a call that documents `S_OK` as its only
/// success: nothing for `S_OK`; the named failure for a code that has a name;
/// and for every other code, the alternate success among them, an
/// unclassified failure that carries the code itself.
pub open spec fn failure_of_spec(raw: HRESULT) -> Option<Failure> {
    if raw == S_OK {
        None
    } else if raw == REGDB_E_CLASSNOTREG {
        Some(Failure::ClassResolution)
    } else if raw == E_NOINTERFACE {
        Some(Failure::InterfaceMismatch)
    } else if raw == E_NOACCESS {
        Some(Failure::AccessDenied)
    } else {
        Some(Failure::Unclassified(raw))
    }
}

/// What is wrong with a status at a call that documents `S_OK` as its only
/// success. `None` exactly for `S_OK`; the failure returned stands for the
/// status as it came.
pub fn failure_of(raw: HRESULT) -> (cause: Option<Failure>)
    ensures
        cause == failure_of_spec(raw),
        cause is None <==> raw == S_OK,
        cause matches Some(failure) ==> failure.wf() && failure.code_spec() == raw,
{
    match classify(raw) {
        Status::Success => None,
        Status::SuccessAlternate => Some(Failure::Unclassified(raw)),
        Status::Failure(failure) => Some(failure),
    }
}

/// The four kinds of outcome, as a number from 0 to 3: success, alternate
/// success, named failure, unclassified failure.
pub open spec fn outcome_kind(status: Status) -> int {
    match status {
        Status::Success => 0,
        Status::SuccessAlternate => 1,
        Status::Failure(Failure::Unclassified(_)) => 3,
        Status::Failure(_) => 2,
    }
}

/// Classification is total: every raw code falls under exactly one of the
/// four kinds of outcome, which kind is decided by the code alone, and an
/// unclassified failure carries the code unchanged.
pub proof fn lemma_classification_total(raw: HRESULT)
    ensures
        0 <= outcome_kind(classify_spec(raw)) <= 3,
        outcome_kind(classify_spec(raw)) == 0 <==> raw == S_OK,
        outcome_kind(classify_spec(raw)) == 1 <==> raw == S_FALSE,
        outcome_kind(classify_spec(raw)) == 2 <==> (raw == REGDB_E_CLASSNOTREG || raw
            == E_NOINTERFACE || raw == E_NOACCESS),
        outcome_kind(classify_spec(raw)) == 3 <==> !is_known_code(raw),
        outcome_kind(classify_spec(raw)) == 3 ==> classify_spec(raw) == Status::Failure(
            Failure::Unclassified(raw),
        ),
        classify_spec(raw).wf(),
{
}

/// Classification loses nothing: the raw code can be read back from its
/// status, and a well-formed status is the classification of its own code.
pub proof fn lemma_classification_round_trip(raw: HRESULT, status: Status)
    ensures
        classify_spec(raw).code_spec() == raw,
        status.wf() ==> classify_spec(status.code_spec()) == status,
{
}

/// Where only `S_OK` is a success, every other code is a failure: the one
/// that its classification names, and for the alternate success, which
/// classification does not count as a failure, the unclassified failure that
/// carries it. The code reads back from the failure.
pub proof fn lemma_failure_of(raw: HRESULT)
    ensures
        failure_of_spec(raw) is None <==> raw == S_OK,
        failure_of_spec(raw) == match classify_spec(raw) {
            Status::Success => None::<Failure>,
            Status::SuccessAlternate => Some(Failure::Unclassified(S_FALSE)),
            Status::Failure(failure) => Some(failure),
        },
        failure_of_spec(raw) matches Some(failure) ==> failure.wf() && failure.code_spec() == raw,
        failure_of_spec(raw) matches Some(failure) ==> (failure is Unclassified <==> raw
            != REGDB_E_CLASSNOTREG && raw != E_NOINTERFACE && raw != E_NOACCESS),
{
}

/// No code outside the documented success set is taken for a success.
pub proof fn lemma_only_documented_successes(raw: HRESULT)
    ensures
        classify_spec(raw).is_success_spec() <==> (raw == S_OK || raw == S_FALSE),
        !classify_spec(raw).is_success_spec() <==> classify_spec(raw) is Failure,
{
}

} // verus!
