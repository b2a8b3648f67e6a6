//! The tag that says which stack stands behind a handle, and the rules of
//! dispatch that depend on nothing but the tag.
//!
//! Every operation of a handle belongs to one of four classes. Its contract
//! names the rule of its class, so that all handles answer alike.

use vstd::prelude::*;
use crate::error::BluetoothError;

verus! {

/// The stack behind a handle. A handle gets its tag when it is built and keeps
/// it for life.
#[derive(Clone, Copy, Debug, PartialEq, Eq, Structural)]
pub enum Backend {
    /// The Linux system-bus stack.
    Bluez,
    /// The Android stack.
    Android,
    /// The macOS framework stack.
    Mac,
    /// No native stack at all: every operation fails as unsupported.
    Empty,
    /// The in-memory test stack.
    Mock,
}

impl Backend {
    /// Whether this is the in-memory test stack, the only one on which the
    /// test surface is open.
    pub open spec fn is_mock(self) -> bool {
        self == Backend::Mock
    }

    /// Whether a platform stack, handed in by the program, stands behind the
    /// handle.
    pub open spec fn is_native(self) -> bool {
        self == Backend::Bluez || self == Backend::Android || self == Backend::Mac
    }

    /// The answer of an operation of the test surface that cannot fail on the
    /// test stack: done there, the fixed refusal anywhere else.
    pub open spec fn test_access(self) -> Result<(), BluetoothError> {
        if self.is_mock() {
            Ok(())
        } else {
            Err(BluetoothError::NotSupportedOnReal)
        }
    }

    /// The rule for queries and commands of the production surface.
    ///
    /// Without a native stack the answer is the fixed "not supported"
    /// failure. The test stack either succeeds or fails with a cause of its
    /// own. A platform stack decides for itself, and where it fails it either
    /// does not offer the operation or gives a cause of its own.
    pub open spec fn answers<T>(self, r: Result<T, BluetoothError>) -> bool {
        match self {
            Backend::Empty => r == Err::<T, BluetoothError>(BluetoothError::NotSupported),
            Backend::Mock => r is Err ==> r->Err_0.is_native(),
            _ => r is Err ==> r->Err_0.is_from_stack(),
        }
    }

    /// The rule for operations of the test surface.
    ///
    /// Off the test stack the answer is the fixed "not supported on real
    /// devices" failure. The test stack either succeeds or fails with a cause
    /// of its own.
    pub open spec fn answers_scripted<T>(self, r: Result<T, BluetoothError>) -> bool {
        if self.is_mock() {
            r is Err ==> r->Err_0.is_native()
        } else {
            r == Err::<T, BluetoothError>(BluetoothError::NotSupportedOnReal)
        }
    }

    /// The rule for queries that only the test stack can answer.
    ///
    /// Off the test stack the answer is the fixed "not supported" failure.
    pub open spec fn answers_on_mock_only<T>(self, r: Result<T, BluetoothError>) -> bool {
        if self.is_mock() {
            r is Err ==> r->Err_0.is_native()
        } else {
            r == Err::<T, BluetoothError>(BluetoothError::NotSupported)
        }
    }

    /// The rule for production operations that the test stack cannot serve.
    ///
    /// Only a platform stack can answer, under the rule of the production
    /// surface; everywhere else the answer is the fixed "not supported"
    /// failure.
    pub open spec fn answers_on_native_only<T>(self, r: Result<T, BluetoothError>) -> bool {
        if self.is_native() {
            self.answers(r)
        } else {
            r == Err::<T, BluetoothError>(BluetoothError::NotSupported)
        }
    }
}

/// An operation of the test surface answers with the "not supported on real
/// devices" failure on every handle that is not on the test stack, and on no
/// handle that is.
pub proof fn test_surface_is_closed_exactly_off_the_test_stack<T>(
    backend: Backend,
    r: Result<T, BluetoothError>,
)
    requires
        backend.answers_scripted(r),
    ensures
        !backend.is_mock() <==> r == Err::<T, BluetoothError>(BluetoothError::NotSupportedOnReal),
{
}

/// Where an operation of the production surface fails, the failure is one
/// that a stack can give: never the refusal of the test surface, of a
/// builder of mock objects, or of mismatched handles.
pub proof fn production_failures_come_from_the_stack<T>(
    backend: Backend,
    r: Result<T, BluetoothError>,
)
    requires
        backend.answers(r) || backend.answers_on_native_only(r) || backend.answers_on_mock_only(r),
        r is Err,
    ensures
        r->Err_0.is_from_stack(),
{
}

} // verus!
