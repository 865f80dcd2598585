//! What went wrong, and the one line of text that says so.

use vstd::prelude::*;
use vstd::string::*;
use crate::broker::UsageError;
use crate::handle::AcquireError;
use crate::status::Failure;
use crate::table::{Interface, Method};
use crate::text::{
    decimal_spec,
    hex_spec,
    lemma_decimal_reads_back,
    lemma_hex_reads_back,
    number_of,
    push_decimal,
    push_hex,
};

verus! {

/// The reason for which a sequence of foreign calls was given up: the step
/// that failed, and how.
#[derive(Clone, Copy, Debug, PartialEq, Eq, Structural)]
pub enum Diagnostic {
    /// The subsystem could not be initialized.
    Initialize(Failure),
    /// No object was created.
    CreateInstance(AcquireError),
    /// A call through an object's table returned a failure.
    Invoke { interface: Interface, method: Method, cause: Failure },
    /// The foreign side was used against its rules of order.
    Usage(UsageError),
}

impl Diagnostic {
    /// The text of the diagnostic. A failed initialization shows its status
    /// in decimal. A failed creation names the failure if it has a name and
    /// shows the status in hexadecimal if not. A failed call names the
    /// interface and the entry point and shows the status in hexadecimal.
    pub open spec fn message_spec(self) -> Seq<char> {
        match self {
            Diagnostic::Initialize(cause) => "call to CoInitializeEx failed: "@ + decimal_spec(
                cause.code_spec() as nat,
            ),
            Diagnostic::CreateInstance(AcquireError::Rejected(Failure::ClassResolution)) =>
                "CoCreateInstance failed: class not registered"@,
            Diagnostic::CreateInstance(AcquireError::Rejected(Failure::InterfaceMismatch)) =>
                "CoCreateInstance failed: class does not implement interface"@,
            Diagnostic::CreateInstance(AcquireError::Rejected(Failure::AccessDenied)) =>
                "CoCreateInstance failed: ERROR_NOACCESS; see https://github.com/rust-lang/rust/issues/13259"@,
            Diagnostic::CreateInstance(AcquireError::Rejected(Failure::Unclassified(raw))) =>
                "CoCreateInstance failed: error "@ + hex_spec(raw),
            Diagnostic::CreateInstance(AcquireError::NoObject) =>
                "CoCreateInstance failed: no object returned"@,
            Diagnostic::Invoke { interface, method, cause } => interface.name_spec() + "."@
                + method.name_spec() + " failed: error "@ + hex_spec(cause.code_spec()),
            Diagnostic::Usage(UsageError::HandlesHeld) =>
                "usage error: CoUninitialize while object handles are held"@,
            Diagnostic::Usage(UsageError::OutOfOrder { awaited, answered }) => "usage error: "@
                + answered.name_spec() + " answered while awaiting "@ + awaited.name_spec(),
        }
    }

    /// The text of the diagnostic.
    pub fn message(&self) -> (text: String)
        ensures
            text@ == self.message_spec(),
    {
        match *self {
            Diagnostic::Initialize(cause) => {
                let mut text = String::from_str("call to CoInitializeEx failed: ");
                push_decimal(&mut text, cause.code());
                text
            },
            Diagnostic::CreateInstance(AcquireError::Rejected(Failure::ClassResolution)) => {
                String::from_str("CoCreateInstance failed: class not registered")
            },
            Diagnostic::CreateInstance(AcquireError::Rejected(Failure::InterfaceMismatch)) => {
                String::from_str("CoCreateInstance failed: class does not implement interface")
            },
            Diagnostic::CreateInstance(AcquireError::Rejected(Failure::AccessDenied)) => {
                String::from_str(
                    "CoCreateInstance failed: ERROR_NOACCESS; see https://github.com/rust-lang/rust/issues/13259",
                )
            },
            Diagnostic::CreateInstance(AcquireError::Rejected(Failure::Unclassified(raw))) => {
                let mut text = String::from_str("CoCreateInstance failed: error ");
                push_hex(&mut text, raw);
                text
            },
            Diagnostic::CreateInstance(AcquireError::NoObject) => {
                String::from_str("CoCreateInstance failed: no object returned")
            },
            Diagnostic::Invoke { interface, method, cause } => {
                let mut text = String::from_str(interface.name());
                text.append(".");
                text.append(method.name());
                text.append(" failed: error ");
                push_hex(&mut text, cause.code());
                text
            },
            Diagnostic::Usage(UsageError::HandlesHeld) => {
                String::from_str("usage error: CoUninitialize while object handles are held")
            },
            Diagnostic::Usage(UsageError::OutOfOrder { awaited, answered }) => {
                let mut text = String::from_str("usage error: ");
                text.append(answered.name());
                text.append(" answered while awaiting ");
                text.append(awaited.name());
                text
            },
        }
    }
}

/// Where a diagnostic shows a status as a number, the number is the last
/// part of its text and denotes the status exactly: in decimal after a
/// failed initialization, in hexadecimal behind the prefix `0x` after an
/// unclassified failure to create and after a failed call.
pub proof fn lemma_message_carries_status(diagnostic: Diagnostic)
    ensures
        diagnostic matches Diagnostic::Initialize(cause) ==> ({
            let lead = "call to CoInitializeEx failed: "@;
            &&& diagnostic.message_spec().take(lead.len() as int) == lead
            &&& diagnostic.message_spec().skip(lead.len() as int) == decimal_spec(
                cause.code_spec() as nat,
            )
            &&& number_of(diagnostic.message_spec().skip(lead.len() as int), 10)
                == cause.code_spec()
        }),
        diagnostic matches Diagnostic::CreateInstance(
            AcquireError::Rejected(Failure::Unclassified(raw)),
        ) ==> ({
            let lead = "CoCreateInstance failed: error "@;
            &&& diagnostic.message_spec().take(lead.len() as int) == lead
            &&& diagnostic.message_spec().skip(lead.len() as int) == hex_spec(raw)
            &&& number_of(diagnostic.message_spec().skip(lead.len() as int + 2), 16) == raw
        }),
        diagnostic matches Diagnostic::Invoke { interface, method, cause } ==> ({
            let lead = interface.name_spec() + "."@ + method.name_spec() + " failed: error "@;
            &&& diagnostic.message_spec().take(lead.len() as int) == lead
            &&& diagnostic.message_spec().skip(lead.len() as int) == hex_spec(cause.code_spec())
            &&& number_of(diagnostic.message_spec().skip(lead.len() as int + 2), 16)
                == cause.code_spec()
        }),
{
    match diagnostic {
        Diagnostic::Initialize(cause) => {
            let lead = "call to CoInitializeEx failed: "@;
            let tail = decimal_spec(cause.code_spec() as nat);
            lemma_decimal_reads_back(cause.code_spec() as nat);
            assert((lead + tail).take(lead.len() as int) =~= lead);
            assert((lead + tail).skip(lead.len() as int) =~= tail);
        },
        Diagnostic::CreateInstance(AcquireError::Rejected(Failure::Unclassified(raw))) => {
            let lead = "CoCreateInstance failed: error "@;
            let tail = hex_spec(raw);
            lemma_hex_reads_back(raw);
            assert((lead + tail).take(lead.len() as int) =~= lead);
            assert((lead + tail).skip(lead.len() as int) =~= tail);
            assert((lead + tail).skip(lead.len() as int + 2) =~= tail.skip(2));
        },
        Diagnostic::Invoke { interface, method, cause } => {
            let lead = interface.name_spec() + "."@ + method.name_spec() + " failed: error "@;
            let tail = hex_spec(cause.code_spec());
            lemma_hex_reads_back(cause.code_spec());
            assert((lead + tail).take(lead.len() as int) =~= lead);
            assert((lead + tail).skip(lead.len() as int) =~= tail);
            assert((lead + tail).skip(lead.len() as int + 2) =~= tail.skip(2));
        },
        _ => {},
    }
}

} // verus!
