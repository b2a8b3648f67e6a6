//! GATT descriptors.

use vstd::prelude::*;
use std::sync::Arc;
use blurmock::fake_descriptor::FakeBluetoothGATTDescriptor;
use crate::characteristic::BluetoothGATTCharacteristic;
use crate::backend::Backend;
use crate::error::{forward, relay, BluetoothError};
use crate::mock;
use crate::native::{share, NativeDescriptor};

verus! {

/// A handle to a GATT descriptor.
///
/// The variant is the handle's tag: it says which stack owns the descriptor. The
/// handle shares the native object with every other handle to the same
/// descriptor.
pub enum BluetoothGATTDescriptor {
    /// On the Linux system-bus stack.
    Bluez(NativeDescriptor),
    /// On the Android stack.
    Android(NativeDescriptor),
    /// On the macOS framework stack.
    Mac(NativeDescriptor),
    /// Without a native stack.
    Empty,
    /// On the in-memory test stack.
    Mock(Arc<FakeBluetoothGATTDescriptor>),
}

impl Clone for BluetoothGATTDescriptor {
    /// Another handle to the same descriptor.
    fn clone(&self) -> (r: Self)
        ensures
            r == *self,
    {
        match self {
            Self::Bluez(native) => Self::Bluez(native.clone()),
            Self::Android(native) => Self::Android(native.clone()),
            Self::Mac(native) => Self::Mac(native.clone()),
            Self::Empty => Self::Empty,
            Self::Mock(fake) => Self::Mock(share(fake)),
        }
    }
}

impl BluetoothGATTDescriptor {
    /// The stack that owns the object behind this handle.
    pub open spec fn tag(&self) -> Backend {
        match self {
            Self::Bluez(_) => Backend::Bluez,
            Self::Android(_) => Backend::Android,
            Self::Mac(_) => Backend::Mac,
            Self::Empty => Backend::Empty,
            Self::Mock(_) => Backend::Mock,
        }
    }

    /// The stack that owns the object behind this handle.
    #[verifier::when_used_as_spec(tag)]
    pub fn backend(&self) -> (b: Backend)
        ensures
            b == self.tag(),
    {
        match self {
            Self::Bluez(_) => Backend::Bluez,
            Self::Android(_) => Backend::Android,
            Self::Mac(_) => Backend::Mac,
            Self::Empty => Backend::Empty,
            Self::Mock(_) => Backend::Mock,
        }
    }

    /// The way into the test surface: the object on the test stack behind
    /// this handle. Every handle that is not on the test stack is refused
    /// here, with the same failure, before any stack is touched.
    pub fn test_surface(&self) -> (r: Result<
        &Arc<FakeBluetoothGATTDescriptor>,
        BluetoothError,
    >)
        ensures
            r matches Ok(fake) ==> *self == Self::Mock(*fake),
            r matches Err(refusal) ==> !self.backend().is_mock() && refusal
                == BluetoothError::NotSupportedOnReal,
    {
        match self {
            Self::Mock(fake) => Ok(fake),
            _ => Err(BluetoothError::NotSupportedOnReal),
        }
    }

    /// The handle to the descriptor that `characteristic` knows under the
    /// identifier `descriptor`. The new handle lives on the stack of its
    /// parent, whatever the identifier looks like.
    pub fn create_descriptor(
        characteristic: &BluetoothGATTCharacteristic,
        descriptor: String,
    ) -> (r: Self)
        ensures
            r.backend() == characteristic.backend(),
    {
        match characteristic {
            BluetoothGATTCharacteristic::Bluez(native) => {
                Self::Bluez(native.stack.descriptor(descriptor))
            },
            BluetoothGATTCharacteristic::Android(native) => {
                Self::Android(native.stack.descriptor(descriptor))
            },
            BluetoothGATTCharacteristic::Mac(native) => {
                Self::Mac(native.stack.descriptor(descriptor))
            },
            BluetoothGATTCharacteristic::Empty => Self::Empty,
            BluetoothGATTCharacteristic::Mock(fake) => {
                Self::Mock(mock::descriptor_new_empty(share(fake), descriptor))
            },
        }
    }

    /// One handle for each identifier in `descriptors`, in the same order,
    /// each on the stack of `characteristic`. No identifier gives no handle.
    pub fn create_descriptors(
        characteristic: &BluetoothGATTCharacteristic,
        descriptors: Vec<String>,
    ) -> (r: Vec<Self>)
        ensures
            r@.len() == descriptors@.len(),
            forall|i: int|
                0 <= i < r@.len() ==> (#[trigger] r@[i]).backend() == characteristic.backend(),
    {
        let mut handles: Vec<Self> = Vec::new();
        let mut i: usize = 0;
        while i < descriptors.len()
            invariant
                i <= descriptors@.len(),
                handles@.len() == i,
                forall|k: int|
                    0 <= k < handles@.len() ==> (#[trigger] handles@[k]).backend()
                        == characteristic.backend(),
            decreases descriptors@.len() - i,
        {
            let handle = Self::create_descriptor(characteristic, descriptors[i].clone());
            handles.push(handle);
            i += 1;
        }
        handles
    }

    /// The handles that come of what the stack of `characteristic` listed.
    ///
    /// A list of identifiers, also an empty one, becomes the list of their
    /// handles. A failure to list stays that failure: no shorter list
    /// stands in for it.
    pub fn from_listing(
        characteristic: &BluetoothGATTCharacteristic,
        listed: Result<Vec<String>, BluetoothError>,
    ) -> (r: Result<Vec<Self>, BluetoothError>)
        ensures
            listed matches Err(failure) ==> r == Err::<Vec<Self>, BluetoothError>(failure),
            listed matches Ok(ids) ==> r matches Ok(handles) && handles@.len() == ids@.len()
                && forall|i: int|
                    0 <= i < handles@.len() ==> (#[trigger] handles@[i]).backend()
                        == characteristic.backend(),
    {
        match listed {
            Ok(ids) => Ok(Self::create_descriptors(characteristic, ids)),
            Err(failure) => Err(failure),
        }
    }

    /// Builds the mock descriptor `descriptor` under `characteristic`.
    ///
    /// Succeeds exactly when `characteristic` is on the test stack, and the
    /// new handle is on the test stack too. Under any other parent nothing is
    /// built and the "not a mock" failure is returned.
    pub fn create_mock_descriptor(
        characteristic: BluetoothGATTCharacteristic,
        descriptor: String,
    ) -> (r: Result<Self, BluetoothError>)
        ensures
            r matches Ok(handle) ==> characteristic.backend().is_mock() && handle.backend()
                == Backend::Mock,
            r matches Err(failure) ==> !characteristic.backend().is_mock() && failure
                == BluetoothError::NotAMock,
    {
        match characteristic.mock_parent() {
            Ok(fake) => Ok(Self::Mock(mock::descriptor_new_empty(share(fake), descriptor))),
            Err(refusal) => Err(refusal),
        }
    }

    /// The identifier under which the stack knows the descriptor; empty where no
    /// stack stands behind the handle.
    pub fn get_id(&self) -> (r: String)
        ensures
            self.backend() == Backend::Empty ==> r@.len() == 0,
    {
        match self {
            Self::Bluez(native) | Self::Android(native) | Self::Mac(native) => {
                native.stack.get_id()
            },
            Self::Empty => String::new(),
            Self::Mock(fake) => mock::descriptor_get_id(fake),
        }
    }

    /// Scripts the identifier of the descriptor. Test surface: done on the test
    /// stack, refused on every other handle.
    pub fn set_id(&self, id: String) -> (r: Result<(), BluetoothError>)
        ensures
            r == self.backend().test_access(),
    {
        match self.test_surface() {
            Ok(fake) => {
                mock::descriptor_set_id(fake, id);
                Ok(())
            },
            Err(refusal) => Err(refusal),
        }
    }

    /// The UUID of the descriptor.
    pub fn get_uuid(&self) -> (r: Result<String, BluetoothError>)
        ensures
            self.backend().answers(r),
    {
        match self {
            Self::Bluez(native) | Self::Android(native) | Self::Mac(native) => {
                relay(native.stack.get_uuid())
            },
            Self::Empty => Err(BluetoothError::NotSupported),
            Self::Mock(fake) => forward(mock::descriptor_get_uuid(fake)),
        }
    }

    /// Scripts the UUID of the descriptor. Test surface: refused on every
    /// handle that is not on the test stack.
    pub fn set_uuid(&self, uuid: String) -> (r: Result<(), BluetoothError>)
        ensures
            self.backend().answers_scripted(r),
    {
        match self.test_surface() {
            Ok(fake) => forward(mock::descriptor_set_uuid(fake, uuid)),
            Err(refusal) => Err(refusal),
        }
    }

    /// The cached value of the descriptor.
    pub fn get_value(&self) -> (r: Result<Vec<u8>, BluetoothError>)
        ensures
            self.backend().answers(r),
    {
        match self {
            Self::Bluez(native) | Self::Android(native) | Self::Mac(native) => {
                relay(native.stack.get_value())
            },
            Self::Empty => Err(BluetoothError::NotSupported),
            Self::Mock(fake) => forward(mock::descriptor_get_value(fake)),
        }
    }

    /// Scripts the cached value of the descriptor. Test surface: refused on
    /// every handle that is not on the test stack.
    pub fn set_value(&self, value: Vec<u8>) -> (r: Result<(), BluetoothError>)
        ensures
            self.backend().answers_scripted(r),
    {
        match self.test_surface() {
            Ok(fake) => forward(mock::descriptor_set_value(fake, Some(value))),
            Err(refusal) => Err(refusal),
        }
    }

    /// The flags of the descriptor.
    pub fn get_flags(&self) -> (r: Result<Vec<String>, BluetoothError>)
        ensures
            self.backend().answers(r),
    {
        match self {
            Self::Bluez(native) | Self::Android(native) | Self::Mac(native) => {
                relay(native.stack.get_flags())
            },
            Self::Empty => Err(BluetoothError::NotSupported),
            Self::Mock(fake) => forward(mock::descriptor_get_flags(fake)),
        }
    }

    /// Scripts the flags of the descriptor. Test surface: refused on every
    /// handle that is not on the test stack.
    pub fn set_flags(&self, flags: Vec<String>) -> (r: Result<(), BluetoothError>)
        ensures
            self.backend().answers_scripted(r),
    {
        match self.test_surface() {
            Ok(fake) => forward(mock::descriptor_set_flags(fake, flags)),
            Err(refusal) => Err(refusal),
        }
    }

    /// Reads the value of the descriptor from the remote device.
    pub fn read_value(&self) -> (r: Result<Vec<u8>, BluetoothError>)
        ensures
            self.backend().answers(r),
    {
        match self {
            Self::Bluez(native) | Self::Android(native) | Self::Mac(native) => {
                relay(native.stack.read_value())
            },
            Self::Empty => Err(BluetoothError::NotSupported),
            Self::Mock(fake) => forward(mock::descriptor_read_value(fake)),
        }
    }

    /// Writes `values` to the descriptor on the remote device.
    pub fn write_value(&self, values: Vec<u8>) -> (r: Result<(), BluetoothError>)
        ensures
            self.backend().answers(r),
    {
        match self {
            Self::Bluez(native) | Self::Android(native) | Self::Mac(native) => {
                relay(native.stack.write_value(values))
            },
            Self::Empty => Err(BluetoothError::NotSupported),
            Self::Mock(fake) => forward(mock::descriptor_write_value(fake, values)),
        }
    }
}

} // verus!
