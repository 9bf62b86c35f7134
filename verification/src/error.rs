//! The errors that the library reports.

use vstd::prelude::*;
use vstd::string::StringExecFns;

verus! {

/// A type alias for `Result<T, Error>`.
pub type Result<T> = std::result::Result<T, Error>;

/// What went wrong with a socket, as far as the library tells cases apart.
#[derive(Clone, Copy, Debug, PartialEq, Eq, Structural)]
pub enum IoFailureKind {
    /// A receive found nothing before its timeout elapsed.
    WouldBlock,
    /// An operation exceeded its deadline.
    TimedOut,
    /// Any other failure of the socket.
    Other,
}

/// A failure of the network layer, handed in by whoever owns the socket.
#[derive(Debug)]
pub struct IoFailure {
    pub kind: IoFailureKind,
    pub detail: String,
}

/// Why a reply was not understood.
#[derive(Debug)]
pub enum JsonFailure {
    /// The bytes are not a JSON document; the text is what `serde_json`
    /// said.
    Malformed(String),
    /// The document lacks what was expected of it; the text says what.
    Unexpected(String),
}

/// The specific type of an error.
#[derive(Debug)]
pub enum ErrorKind {
    /// The device could not be reached: a socket failed or timed out.
    Io(IoFailure),
    /// The device replied, and the reply was not understood.
    Json(JsonFailure),
    /// The operation is not supported by the device.
    UnsupportedOperation(String),
    /// A valid operation was requested with an invalid parameter.
    InvalidParameter(String),
}

/// Errors that may occur while interacting with a device.
#[derive(Debug)]
pub struct Error {
    kind: ErrorKind,
}

impl Error {
    /// The kind of this error, for contracts.
    pub closed spec fn kind_of(&self) -> ErrorKind {
        self.kind
    }

    /// The device could not be reached.
    pub open spec fn is_io(&self) -> bool {
        self.kind_of() is Io
    }

    /// The reply was not understood.
    pub open spec fn is_json(&self) -> bool {
        self.kind_of() is Json
    }

    /// The reply was not a JSON document.
    pub open spec fn is_malformed(&self) -> bool {
        self.kind_of() matches ErrorKind::Json(JsonFailure::Malformed(_))
    }

    /// The reply was a JSON document of an unexpected shape.
    pub open spec fn is_unexpected(&self) -> bool {
        self.kind_of() matches ErrorKind::Json(JsonFailure::Unexpected(_))
    }

    /// The device lacks the capability.
    pub open spec fn is_unsupported(&self) -> bool {
        self.kind_of() is UnsupportedOperation
    }

    /// A parameter was out of range.
    pub open spec fn is_invalid_parameter(&self) -> bool {
        self.kind_of() is InvalidParameter
    }

    /// Creates a new `Error` of the given kind.
    pub fn new(kind: ErrorKind) -> (e: Error)
        ensures
            e.kind_of() == kind,
    {
        Error { kind }
    }

    /// Returns the specific type of this error.
    pub fn kind(&self) -> (kind: &ErrorKind)
        ensures
            *kind == self.kind_of(),
    {
        &self.kind
    }

    /// A line of text for the error. For the two caller-level kinds it is a
    /// fixed prefix followed by the text the error was made with.
    pub fn message(&self) -> (text: String)
        ensures
            self.kind_of() matches ErrorKind::Io(failure) ==> text@ == failure.detail@,
            self.kind_of() matches ErrorKind::Json(JsonFailure::Malformed(what)) ==> text@
                == what@,
            self.kind_of() matches ErrorKind::Json(JsonFailure::Unexpected(what)) ==> text@
                == what@,
            self.kind_of() matches ErrorKind::UnsupportedOperation(op) ==> text@
                == "unsupported operation: "@ + op@,
            self.kind_of() matches ErrorKind::InvalidParameter(param) ==> text@
                == "invalid parameter: "@ + param@,
    {
        match &self.kind {
            ErrorKind::Io(failure) => failure.detail.clone(),
            ErrorKind::Json(JsonFailure::Malformed(what)) => what.clone(),
            ErrorKind::Json(JsonFailure::Unexpected(what)) => what.clone(),
            ErrorKind::UnsupportedOperation(op) => String::from_str(
                "unsupported operation: ",
            ).concat(op.as_str()),
            ErrorKind::InvalidParameter(param) => String::from_str("invalid parameter: ").concat(
                param.as_str(),
            ),
        }
    }
}

/// Why a device handle does not send a command.
pub enum Refusal {
    /// The device lacks the capability.
    Unsupported,
    /// A parameter is out of its valid range.
    InvalidParameter,
}

/// Whether `e` is the error for `refusal`.
pub open spec fn refuses(refusal: Refusal, e: Error) -> bool {
    match refusal {
        Refusal::Unsupported => e.is_unsupported(),
        Refusal::InvalidParameter => e.is_invalid_parameter(),
    }
}

/// Whether `told` is `whole` with `pick` applied to what it holds: the
/// picked part of a value, and the same error for an error.
pub open spec fn picked<A, B>(whole: Result<A>, told: Result<B>, pick: spec_fn(A) -> B) -> bool {
    match whole {
        Ok(value) => told matches Ok(part) && part == pick(value),
        Err(e) => told matches Err(failed) && failed == e,
    }
}

/// The error for a failure of the network layer.
pub fn io(failure: IoFailure) -> (e: Error)
    ensures
        e.kind_of() == ErrorKind::Io(failure),
{
    Error::new(ErrorKind::Io(failure))
}

/// The error for a reply that was not understood.
pub fn json(failure: JsonFailure) -> (e: Error)
    ensures
        e.kind_of() == ErrorKind::Json(failure),
{
    Error::new(ErrorKind::Json(failure))
}

/// The error for a document of an unexpected shape.
pub fn unexpected(what: &str) -> (e: Error)
    ensures
        e.kind_of() matches ErrorKind::Json(JsonFailure::Unexpected(text)) && text@ == what@,
{
    Error::new(ErrorKind::Json(JsonFailure::Unexpected(String::from_str(what))))
}

/// The error for an operation that the device does not support.
pub fn unsupported_operation(op: &str) -> (e: Error)
    ensures
        e.kind_of() matches ErrorKind::UnsupportedOperation(text) && text@ == op@,
{
    Error::new(ErrorKind::UnsupportedOperation(String::from_str(op)))
}

/// The error for a parameter out of its valid range.
pub fn invalid_parameter(param: &str) -> (e: Error)
    ensures
        e.kind_of() matches ErrorKind::InvalidParameter(text) && text@ == param@,
{
    Error::new(ErrorKind::InvalidParameter(String::from_str(param)))
}

} // verus!
