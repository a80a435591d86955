//! Errors that the entry points hand back to the object runtime.

use vstd::prelude::*;

verus! {

/// What went wrong.
#[derive(Debug, Clone, Copy, PartialEq, Eq, Structural)]
pub enum ErrorKind {
    /// The key object does not convert to the operation's key type.
    KeyConversion,
    /// The value object does not convert to the operation's value type.
    ValueConversion,
    /// The host type lacks the operation that the call asked for.
    OperationNotSupported,
    /// Raised by the host type's own operation.
    UserOperation,
    /// A host operation broke the protocol's contract (a negative length).
    InvariantViolation,
}

/// An error as the runtime reports it: a kind and a message.
#[derive(Debug, Clone, PartialEq, Eq)]
pub struct PyErr {
    pub kind: ErrorKind,
    pub message: String,
}

impl View for PyErr {
    type V = (ErrorKind, Seq<char>);

    open spec fn view(&self) -> (ErrorKind, Seq<char>) {
        (self.kind, self.message@)
    }
}

/// A result with its error seen through the error's view.
pub open spec fn result_view<A>(r: Result<A, PyErr>) -> Result<A, (ErrorKind, Seq<char>)> {
    match r {
        Ok(a) => Ok(a),
        Err(e) => Err(e@),
    }
}

pub open spec fn key_conversion_message() -> Seq<char> {
    "key cannot be converted to the operation's key type"@
}

pub open spec fn value_conversion_message() -> Seq<char> {
    "value cannot be converted to the operation's value type"@
}

pub open spec fn negative_length_message() -> Seq<char> {
    "__len__() should return >= 0"@
}

pub open spec fn deletion_not_supported_message(host_name: Seq<char>) -> Seq<char> {
    "subscript deletion not supported by "@ + host_name
}

pub open spec fn assignment_not_supported_message(host_name: Seq<char>) -> Seq<char> {
    "subscript assignment not supported by "@ + host_name
}

impl PyErr {
    /// An error of the given kind with the given message.
    pub fn new(kind: ErrorKind, message: String) -> (r: PyErr)
        ensures
            r.kind == kind,
            r.message == message,
    {
        PyErr { kind, message }
    }

    /// An error raised by a host operation.
    pub fn user(message: String) -> (r: PyErr)
        ensures
            r.kind == ErrorKind::UserOperation,
            r.message == message,
    {
        PyErr { kind: ErrorKind::UserOperation, message }
    }

    pub fn key_conversion() -> (r: PyErr)
        ensures
            r@ == (ErrorKind::KeyConversion, key_conversion_message()),
    {
        let message = "key cannot be converted to the operation's key type".to_owned();
        PyErr { kind: ErrorKind::KeyConversion, message }
    }

    pub fn value_conversion() -> (r: PyErr)
        ensures
            r@ == (ErrorKind::ValueConversion, value_conversion_message()),
    {
        let message = "value cannot be converted to the operation's value type".to_owned();
        PyErr { kind: ErrorKind::ValueConversion, message }
    }

    pub fn negative_length() -> (r: PyErr)
        ensures
            r@ == (ErrorKind::InvariantViolation, negative_length_message()),
    {
        let message = "__len__() should return >= 0".to_owned();
        PyErr { kind: ErrorKind::InvariantViolation, message }
    }

    pub fn deletion_not_supported(host_name: &str) -> (r: PyErr)
        ensures
            r@ == (ErrorKind::OperationNotSupported, deletion_not_supported_message(host_name@)),
    {
        let message = "subscript deletion not supported by ".to_owned().concat(host_name);
        PyErr { kind: ErrorKind::OperationNotSupported, message }
    }

    pub fn assignment_not_supported(host_name: &str) -> (r: PyErr)
        ensures
            r@ == (ErrorKind::OperationNotSupported, assignment_not_supported_message(host_name@)),
    {
        let message = "subscript assignment not supported by ".to_owned().concat(host_name);
        PyErr { kind: ErrorKind::OperationNotSupported, message }
    }
}

} // verus!
