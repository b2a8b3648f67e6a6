//! The failures that an operation of this library can report.

use vstd::prelude::*;
use crate::native::NativeFailure;

verus! {

/// Why an operation failed.
///
/// The first four kinds are raised by the library itself and never carry
/// anything from a native stack. `Native` carries the cause that the stack
/// behind the handle reported, word for word.
#[derive(Debug, PartialEq, Eq)]
pub enum BluetoothError {
    /// The stack behind the handle does not offer the operation.
    NotSupported,
    /// An operation of the test surface was called on a handle that is not
    /// backed by the in-memory test stack.
    NotSupportedOnReal,
    /// A mock object was to be built under a parent that is not backed by the
    /// in-memory test stack.
    NotAMock,
    /// Two handles that must live on the same stack do not.
    BackendMismatch,
    /// The native stack reported a failure; the text is its own.
    Native(String),
}

impl Clone for BluetoothError {
    /// The same failure, with the same text.
    fn clone(&self) -> (r: Self)
        ensures
            r == *self,
    {
        match self {
            BluetoothError::NotSupported => BluetoothError::NotSupported,
            BluetoothError::NotSupportedOnReal => BluetoothError::NotSupportedOnReal,
            BluetoothError::NotAMock => BluetoothError::NotAMock,
            BluetoothError::BackendMismatch => BluetoothError::BackendMismatch,
            BluetoothError::Native(cause) => BluetoothError::Native(cause.clone()),
        }
    }
}

impl BluetoothError {
    /// The text that `message` returns.
    pub open spec fn text(self) -> Seq<char> {
        match self {
            BluetoothError::NotSupported => "Error! Not supported platform!"@,
            BluetoothError::NotSupportedOnReal =>
                "Error! Test functions are not supported on real devices!"@,
            BluetoothError::NotAMock => "Error! The first parameter must be a mock structure!"@,
            BluetoothError::BackendMismatch =>
                "Error! The handles belong to different Bluetooth stacks!"@,
            BluetoothError::Native(cause) => cause@,
        }
    }

    /// Whether the failure carries a cause that a stack reported.
    pub open spec fn is_native(self) -> bool {
        self is Native
    }

    /// Whether a platform stack can be the origin of the failure: it does
    /// not offer the operation, or it reported a cause of its own.
    pub open spec fn is_from_stack(self) -> bool {
        self == BluetoothError::NotSupported || self is Native
    }

    /// A human-readable cause. The kinds that the library raises itself each
    /// have a fixed text; a native failure gives the text it carries.
    pub fn message(&self) -> (r: String)
        ensures
            r@ == self.text(),
    {
        match self {
            BluetoothError::NotSupported => "Error! Not supported platform!".to_owned(),
            BluetoothError::NotSupportedOnReal =>
                "Error! Test functions are not supported on real devices!".to_owned(),
            BluetoothError::NotAMock =>
                "Error! The first parameter must be a mock structure!".to_owned(),
            BluetoothError::BackendMismatch =>
                "Error! The handles belong to different Bluetooth stacks!".to_owned(),
            BluetoothError::Native(cause) => cause.clone(),
        }
    }
}

/// What a caller sees of an answer of the test stack: a value is handed on as
/// it is, a cause becomes a `Native` failure with the same text.
pub open spec fn forwarded<T>(outcome: Result<T, String>) -> Result<T, BluetoothError> {
    match outcome {
        Ok(value) => Ok(value),
        Err(cause) => Err(BluetoothError::Native(cause)),
    }
}

/// Hands on an answer of the test stack, see `forwarded`.
pub fn forward<T>(outcome: Result<T, String>) -> (r: Result<T, BluetoothError>)
    ensures
        r == forwarded(outcome),
{
    match outcome {
        Ok(value) => Ok(value),
        Err(cause) => Err(BluetoothError::Native(cause)),
    }
}

/// What a caller sees of an answer of a platform stack: a value is handed on
/// as it is, and so is a failure, in the library's own terms.
pub open spec fn relayed<T>(outcome: Result<T, NativeFailure>) -> Result<T, BluetoothError> {
    match outcome {
        Ok(value) => Ok(value),
        Err(NativeFailure::NotSupported) => Err(BluetoothError::NotSupported),
        Err(NativeFailure::Failed(cause)) => Err(BluetoothError::Native(cause)),
    }
}

/// Hands on an answer of a platform stack, see `relayed`.
pub fn relay<T>(outcome: Result<T, NativeFailure>) -> (r: Result<T, BluetoothError>)
    ensures
        r == relayed(outcome),
{
    match outcome {
        Ok(value) => Ok(value),
        Err(NativeFailure::NotSupported) => Err(BluetoothError::NotSupported),
        Err(NativeFailure::Failed(cause)) => Err(BluetoothError::Native(cause)),
    }
}

} // verus!
