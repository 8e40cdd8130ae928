//! The failures that cross the boundary, and the text each one carries.

use vstd::prelude::*;
use vstd::string::*;

verus! {

/// How one engine operation can fail.
#[derive(Clone, Copy, Debug, PartialEq, Eq, Structural)]
pub enum FaultKind {
    /// The engine reported an explicit error.
    Engine,
    /// The operation unwound instead of returning.
    Panic,
    /// The engine does not accept the slot id.
    InvalidSlot,
    /// The slot exists but holds no output yet.
    SlotNotReady,
    /// The engine could not allocate its copy of the input.
    CopyFailed,
}

/// A failure reported by one engine operation, with the text that came with it.
///
/// A panic whose payload was neither a `String` nor a `&str` has no text.
#[derive(Debug, PartialEq, Eq)]
pub struct Fault {
    pub kind: FaultKind,
    pub text: Option<String>,
}

/// The classes of failure that the host can be told about.
#[derive(Clone, Copy, Debug, PartialEq, Eq, Structural)]
pub enum ErrorKind {
    /// The engine could not be constructed.
    EngineInit,
    /// The engine reported an explicit error; the context is broken from then on.
    Engine,
    /// An engine operation unwound; the context is broken from then on.
    Panic,
    /// The context was broken by an earlier call.
    ContextFailed,
    /// The engine does not accept the slot id.
    InvalidSlot,
    /// The slot exists but holds no output yet.
    SlotNotReady,
    /// A copy across the boundary could not be made: the engine could not
    /// allocate its copy of the input, or the output is longer than the
    /// host's account of external memory can take.
    CopyFailed,
    /// Bytes that should have been text are not valid UTF-8.
    Encoding,
    /// The job was disposed before the call.
    Disposed,
    /// An asynchronous call cannot be taken: no worker pool is running, or
    /// no further call can be counted.
    PoolUnavailable,
    /// Something unwound inside the bridge itself, outside any engine call.
    Internal,
}

/// A failure as the host sees it: a class and, where there is one, a text.
#[derive(Debug, PartialEq, Eq)]
pub struct BridgeError {
    pub kind: ErrorKind,
    pub text: Option<String>,
}

/// The error object handed to the host: a stable code and a message.
#[derive(Debug, PartialEq, Eq)]
pub struct HostError {
    pub code: String,
    pub message: String,
}

/// A `Fault` with its text as a sequence of characters.
pub struct FaultModel {
    pub kind: FaultKind,
    pub text: Option<Seq<char>>,
}

/// A `BridgeError` with its text as a sequence of characters.
pub struct ErrorModel {
    pub kind: ErrorKind,
    pub text: Option<Seq<char>>,
}

/// The characters of an optional text.
pub open spec fn text_of(text: Option<String>) -> Option<Seq<char>> {
    match text {
        Some(t) => Some(t@),
        None => None,
    }
}

impl View for Fault {
    type V = FaultModel;

    open spec fn view(&self) -> FaultModel {
        FaultModel { kind: self.kind, text: text_of(self.text) }
    }
}

impl View for BridgeError {
    type V = ErrorModel;

    open spec fn view(&self) -> ErrorModel {
        ErrorModel { kind: self.kind, text: text_of(self.text) }
    }
}

impl View for HostError {
    type V = (Seq<char>, Seq<char>);

    open spec fn view(&self) -> (Seq<char>, Seq<char>) {
        (self.code@, self.message@)
    }
}

/// Whether a fault of this kind breaks the context for good.
pub open spec fn latches(kind: FaultKind) -> bool {
    kind == FaultKind::Engine || kind == FaultKind::Panic
}

/// The class under which a fault of this kind is reported to the host.
pub open spec fn surfaced_kind(kind: FaultKind) -> ErrorKind {
    match kind {
        FaultKind::Engine => ErrorKind::Engine,
        FaultKind::Panic => ErrorKind::Panic,
        FaultKind::InvalidSlot => ErrorKind::InvalidSlot,
        FaultKind::SlotNotReady => ErrorKind::SlotNotReady,
        FaultKind::CopyFailed => ErrorKind::CopyFailed,
    }
}

/// The error that reports a fault to the host: same class, same text.
pub open spec fn surfaced(fault: FaultModel) -> ErrorModel {
    ErrorModel { kind: surfaced_kind(fault.kind), text: fault.text }
}

/// Whether an error of this kind belongs to the sticky class: it either broke
/// the context or says that the context is broken.
pub open spec fn sticky(kind: ErrorKind) -> bool {
    kind == ErrorKind::Engine || kind == ErrorKind::Panic || kind == ErrorKind::ContextFailed
}

/// An optional text, empty where there is none.
pub open spec fn text_or_empty(text: Option<Seq<char>>) -> Seq<char> {
    match text {
        Some(t) => t,
        None => Seq::empty(),
    }
}

/// The message for a failure inside the module, with or without a text.
pub open spec fn internal_message(text: Option<Seq<char>>) -> Seq<char> {
    match text {
        Some(t) => "internal error in module: "@ + t,
        None => "internal error in  module"@,
    }
}

/// The message that the host reads for an error.
pub open spec fn rendered(error: ErrorModel) -> Seq<char> {
    match error.kind {
        ErrorKind::EngineInit => "Unable to create context:"@ + text_or_empty(error.text),
        ErrorKind::ContextFailed => "context already has an error"@,
        ErrorKind::Encoding => text_or_empty(error.text),
        ErrorKind::Disposed => "job has been disposed"@,
        ErrorKind::PoolUnavailable => "Unable to get thread for async task"@,
        ErrorKind::Engine
        | ErrorKind::Panic
        | ErrorKind::InvalidSlot
        | ErrorKind::SlotNotReady
        | ErrorKind::CopyFailed
        | ErrorKind::Internal => internal_message(error.text),
    }
}

/// The code that every error carries to the host.
pub open spec fn host_code() -> Seq<char> {
    "INTERNAL_ERROR"@
}

impl FaultKind {
    /// Whether a fault of this kind breaks the context for good.
    pub fn latches(self) -> (b: bool)
        ensures
            b == latches(self),
    {
        match self {
            FaultKind::Engine | FaultKind::Panic => true,
            FaultKind::InvalidSlot | FaultKind::SlotNotReady | FaultKind::CopyFailed => false,
        }
    }

    /// The class under which a fault of this kind is reported to the host.
    pub fn surfaced(self) -> (kind: ErrorKind)
        ensures
            kind == surfaced_kind(self),
    {
        match self {
            FaultKind::Engine => ErrorKind::Engine,
            FaultKind::Panic => ErrorKind::Panic,
            FaultKind::InvalidSlot => ErrorKind::InvalidSlot,
            FaultKind::SlotNotReady => ErrorKind::SlotNotReady,
            FaultKind::CopyFailed => ErrorKind::CopyFailed,
        }
    }
}

impl ErrorKind {
    /// Whether an error of this kind belongs to the sticky class.
    pub fn is_sticky(self) -> (b: bool)
        ensures
            b == sticky(self),
    {
        match self {
            ErrorKind::Engine | ErrorKind::Panic | ErrorKind::ContextFailed => true,
            ErrorKind::EngineInit
            | ErrorKind::InvalidSlot
            | ErrorKind::SlotNotReady
            | ErrorKind::CopyFailed
            | ErrorKind::Encoding
            | ErrorKind::Disposed
            | ErrorKind::PoolUnavailable
            | ErrorKind::Internal => false,
        }
    }
}

impl BridgeError {
    /// An error of a class that carries no text.
    pub fn bare(kind: ErrorKind) -> (error: BridgeError)
        ensures
            error@ == (ErrorModel { kind, text: None }),
    {
        BridgeError { kind, text: None }
    }

    /// The error for something that unwound inside the bridge itself, outside
    /// any engine call, with the text of the panic where it had one.
    pub fn internal(text: Option<String>) -> (error: BridgeError)
        ensures
            error@ == (ErrorModel { kind: ErrorKind::Internal, text: text_of(text) }),
            error.text == text,
    {
        BridgeError { kind: ErrorKind::Internal, text }
    }

    /// The error that reports `fault` to the host: same class, same text.
    pub fn from_fault(fault: Fault) -> (error: BridgeError)
        ensures
            error@ == surfaced(fault@),
            error.text == fault.text,
    {
        BridgeError { kind: fault.kind.surfaced(), text: fault.text }
    }

    /// Whether this error belongs to the sticky class.
    pub fn is_sticky(&self) -> (b: bool)
        ensures
            b == sticky(self.kind),
    {
        self.kind.is_sticky()
    }

    /// The code under which the host files this error.
    pub fn code(&self) -> (code: &'static str)
        ensures
            code@ == host_code(),
    {
        "INTERNAL_ERROR"
    }

    /// The message that the host reads.
    pub fn message(&self) -> (message: String)
        ensures
            message@ == rendered(self@),
    {
        match self.kind {
            ErrorKind::EngineInit => {
                let mut message = String::from_str("Unable to create context:");
                match &self.text {
                    Some(t) => {
                        message.append(t.as_str());
                    },
                    None => {},
                }
                message
            },
            ErrorKind::ContextFailed => String::from_str("context already has an error"),
            ErrorKind::Encoding => match &self.text {
                Some(t) => t.clone(),
                None => String::new(),
            },
            ErrorKind::Disposed => String::from_str("job has been disposed"),
            ErrorKind::PoolUnavailable => String::from_str("Unable to get thread for async task"),
            ErrorKind::Engine
            | ErrorKind::Panic
            | ErrorKind::InvalidSlot
            | ErrorKind::SlotNotReady
            | ErrorKind::CopyFailed
            | ErrorKind::Internal => match &self.text {
                Some(t) => {
                    let mut message = String::from_str("internal error in module: ");
                    message.append(t.as_str());
                    message
                },
                None => String::from_str("internal error in  module"),
            },
        }
    }

    /// The error object for the host: the code and the message of this error.
    pub fn to_host(&self) -> (host: HostError)
        ensures
            host@ == (host_code(), rendered(self@)),
    {
        HostError { code: String::from_str(self.code()), message: self.message() }
    }
}

/// Builds the error object for the host from a code and a message.
pub fn create_error(code: &str, error: &str) -> (host: HostError)
    ensures
        host@ == (code@, error@),
{
    HostError { code: String::from_str(code), message: String::from_str(error) }
}

} // verus!
