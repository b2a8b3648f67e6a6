//! GATT characteristics.

use vstd::prelude::*;
use std::sync::Arc;
use blurmock::fake_characteristic::FakeBluetoothGATTCharacteristic;
use crate::descriptor::BluetoothGATTDescriptor;
use crate::service::BluetoothGATTService;
use crate::backend::Backend;
use crate::error::{forward, relay, BluetoothError};
use crate::mock;
use crate::native::{share, NativeCharacteristic};

verus! {

/// A handle to a GATT characteristic.
///
/// The variant is the handle's tag: it says which stack owns the characteristic. The
/// handle shares the native object with every other handle to the same
/// characteristic.
pub enum BluetoothGATTCharacteristic {
    /// On the Linux system-bus stack.
    Bluez(NativeCharacteristic),
    /// On the Android stack.
    Android(NativeCharacteristic),
    /// On the macOS framework stack.
    Mac(NativeCharacteristic),
    /// Without a native stack.
    Empty,
    /// On the in-memory test stack.
    Mock(Arc<FakeBluetoothGATTCharacteristic>),
}

impl Clone for BluetoothGATTCharacteristic {
    /// Another handle to the same characteristic.
    fn clone(&self) -> (r: Self)
        ensures
            r == *self,
    {
        match self {
            Self::Bluez(native) => Self::Bluez(native.clone()),
            Self::Android(native) => Self::Android(native.clone()),
            Self::Mac(native) => Self::Mac(native.clone()),
            Self::Empty => Self::Empty,
            Self::Mock(fake) => Self::Mock(share(fake)),
        }
    }
}

impl BluetoothGATTCharacteristic {
    /// The stack that owns the object behind this handle.
    pub open spec fn tag(&self) -> Backend {
        match self {
            Self::Bluez(_) => Backend::Bluez,
            Self::Android(_) => Backend::Android,
            Self::Mac(_) => Backend::Mac,
            Self::Empty => Backend::Empty,
            Self::Mock(_) => Backend::Mock,
        }
    }

    /// The stack that owns the object behind this handle.
    #[verifier::when_used_as_spec(tag)]
    pub fn backend(&self) -> (b: Backend)
        ensures
            b == self.tag(),
    {
        match self {
            Self::Bluez(_) => Backend::Bluez,
            Self::Android(_) => Backend::Android,
            Self::Mac(_) => Backend::Mac,
            Self::Empty => Backend::Empty,
            Self::Mock(_) => Backend::Mock,
        }
    }

    /// The way into the test surface: the object on the test stack behind
    /// this handle. Every handle that is not on the test stack is refused
    /// here, with the same failure, before any stack is touched.
    pub fn test_surface(&self) -> (r: Result<
        &Arc<FakeBluetoothGATTCharacteristic>,
        BluetoothError,
    >)
        ensures
            r matches Ok(fake) ==> *self == Self::Mock(*fake),
            r matches Err(refusal) ==> !self.backend().is_mock() && refusal
                == BluetoothError::NotSupportedOnReal,
    {
        match self {
            Self::Mock(fake) => Ok(fake),
            _ => Err(BluetoothError::NotSupportedOnReal),
        }
    }

    /// The parent under which a mock object can be built: the object on the
    /// test stack behind this handle. Every handle that is not on the test
    /// stack is refused here, with the same failure, and nothing is built.
    pub fn mock_parent(&self) -> (r: Result<
        &Arc<FakeBluetoothGATTCharacteristic>,
        BluetoothError,
    >)
        ensures
            r matches Ok(fake) ==> *self == Self::Mock(*fake),
            r matches Err(refusal) ==> !self.backend().is_mock() && refusal
                == BluetoothError::NotAMock,
    {
        match self {
            Self::Mock(fake) => Ok(fake),
            _ => Err(BluetoothError::NotAMock),
        }
    }

    /// The handle to the characteristic that `service` knows under the
    /// identifier `characteristic`. The new handle lives on the stack of its
    /// parent, whatever the identifier looks like.
    pub fn create_characteristic(
        service: &BluetoothGATTService,
        characteristic: String,
    ) -> (r: Self)
        ensures
            r.backend() == service.backend(),
    {
        match service {
            BluetoothGATTService::Bluez(native) => {
                Self::Bluez(native.stack.characteristic(characteristic))
            },
            BluetoothGATTService::Android(native) => {
                Self::Android(native.stack.characteristic(characteristic))
            },
            BluetoothGATTService::Mac(native) => {
                Self::Mac(native.stack.characteristic(characteristic))
            },
            BluetoothGATTService::Empty => Self::Empty,
            BluetoothGATTService::Mock(fake) => {
                Self::Mock(mock::characteristic_new_empty(share(fake), characteristic))
            },
        }
    }

    /// One handle for each identifier in `characteristics`, in the same order,
    /// each on the stack of `service`. No identifier gives no handle.
    pub fn create_characteristics(
        service: &BluetoothGATTService,
        characteristics: Vec<String>,
    ) -> (r: Vec<Self>)
        ensures
            r@.len() == characteristics@.len(),
            forall|i: int|
                0 <= i < r@.len() ==> (#[trigger] r@[i]).backend() == service.backend(),
    {
        let mut handles: Vec<Self> = Vec::new();
        let mut i: usize = 0;
        while i < characteristics.len()
            invariant
                i <= characteristics@.len(),
                handles@.len() == i,
                forall|k: int|
                    0 <= k < handles@.len() ==> (#[trigger] handles@[k]).backend()
                        == service.backend(),
            decreases characteristics@.len() - i,
        {
            let handle = Self::create_characteristic(service, characteristics[i].clone());
            handles.push(handle);
            i += 1;
        }
        handles
    }

    /// The handles that come of what the stack of `service` listed.
    ///
    /// A list of identifiers, also an empty one, becomes the list of their
    /// handles. A failure to list stays that failure: no shorter list
    /// stands in for it.
    pub fn from_listing(
        service: &BluetoothGATTService,
        listed: Result<Vec<String>, BluetoothError>,
    ) -> (r: Result<Vec<Self>, BluetoothError>)
        ensures
            listed matches Err(failure) ==> r == Err::<Vec<Self>, BluetoothError>(failure),
            listed matches Ok(ids) ==> r matches Ok(handles) && handles@.len() == ids@.len()
                && forall|i: int|
                    0 <= i < handles@.len() ==> (#[trigger] handles@[i]).backend()
                        == service.backend(),
    {
        match listed {
            Ok(ids) => Ok(Self::create_characteristics(service, ids)),
            Err(failure) => Err(failure),
        }
    }

    /// Builds the mock characteristic `characteristic` under `service`.
    ///
    /// Succeeds exactly when `service` is on the test stack, and the new
    /// handle is on the test stack too. Under any other parent nothing is
    /// built and the "not a mock" failure is returned.
    pub fn create_mock_characteristic(
        service: BluetoothGATTService,
        characteristic: String,
    ) -> (r: Result<Self, BluetoothError>)
        ensures
            r matches Ok(handle) ==> service.backend().is_mock() && handle.backend()
                == Backend::Mock,
            r matches Err(failure) ==> !service.backend().is_mock() && failure
                == BluetoothError::NotAMock,
    {
        match service.mock_parent() {
            Ok(fake) => Ok(Self::Mock(mock::characteristic_new_empty(share(fake), characteristic))),
            Err(refusal) => Err(refusal),
        }
    }

    /// The identifier under which the stack knows the characteristic; empty where no
    /// stack stands behind the handle.
    pub fn get_id(&self) -> (r: String)
        ensures
            self.backend() == Backend::Empty ==> r@.len() == 0,
    {
        match self {
            Self::Bluez(native) | Self::Android(native) | Self::Mac(native) => {
                native.stack.get_id()
            },
            Self::Empty => String::new(),
            Self::Mock(fake) => mock::characteristic_get_id(fake),
        }
    }

    /// Scripts the identifier of the characteristic. Test surface: done on the test
    /// stack, refused on every other handle.
    pub fn set_id(&self, id: String) -> (r: Result<(), BluetoothError>)
        ensures
            r == self.backend().test_access(),
    {
        match self.test_surface() {
            Ok(fake) => {
                mock::characteristic_set_id(fake, id);
                Ok(())
            },
            Err(refusal) => Err(refusal),
        }
    }

    /// The UUID of the characteristic.
    pub fn get_uuid(&self) -> (r: Result<String, BluetoothError>)
        ensures
            self.backend().answers(r),
    {
        match self {
            Self::Bluez(native) | Self::Android(native) | Self::Mac(native) => {
                relay(native.stack.get_uuid())
            },
            Self::Empty => Err(BluetoothError::NotSupported),
            Self::Mock(fake) => forward(mock::characteristic_get_uuid(fake)),
        }
    }

    /// Scripts the UUID of the characteristic. Test surface: refused on every
    /// handle that is not on the test stack.
    pub fn set_uuid(&self, uuid: String) -> (r: Result<(), BluetoothError>)
        ensures
            self.backend().answers_scripted(r),
    {
        match self.test_surface() {
            Ok(fake) => forward(mock::characteristic_set_uuid(fake, uuid)),
            Err(refusal) => Err(refusal),
        }
    }

    /// The cached value of the characteristic.
    pub fn get_value(&self) -> (r: Result<Vec<u8>, BluetoothError>)
        ensures
            self.backend().answers(r),
    {
        match self {
            Self::Bluez(native) | Self::Android(native) | Self::Mac(native) => {
                relay(native.stack.get_value())
            },
            Self::Empty => Err(BluetoothError::NotSupported),
            Self::Mock(fake) => forward(mock::characteristic_get_value(fake)),
        }
    }

    /// Scripts the cached value of the characteristic. Test surface: refused
    /// on every handle that is not on the test stack.
    pub fn set_value(&self, value: Vec<u8>) -> (r: Result<(), BluetoothError>)
        ensures
            self.backend().answers_scripted(r),
    {
        match self.test_surface() {
            Ok(fake) => forward(mock::characteristic_set_value(fake, Some(value))),
            Err(refusal) => Err(refusal),
        }
    }

    /// Whether the characteristic is sending notifications.
    pub fn is_notifying(&self) -> (r: Result<bool, BluetoothError>)
        ensures
            self.backend().answers(r),
    {
        match self {
            Self::Bluez(native) | Self::Android(native) | Self::Mac(native) => {
                relay(native.stack.is_notifying())
            },
            Self::Empty => Err(BluetoothError::NotSupported),
            Self::Mock(fake) => forward(mock::characteristic_is_notifying(fake)),
        }
    }

    /// Scripts whether the characteristic is sending notifications. Test
    /// surface: refused on every handle that is not on the test stack.
    pub fn set_notifying(&self, notifying: bool) -> (r: Result<(), BluetoothError>)
        ensures
            self.backend().answers_scripted(r),
    {
        match self.test_surface() {
            Ok(fake) => forward(mock::characteristic_set_notifying(fake, notifying)),
            Err(refusal) => Err(refusal),
        }
    }

    /// The flags of the characteristic.
    pub fn get_flags(&self) -> (r: Result<Vec<String>, BluetoothError>)
        ensures
            self.backend().answers(r),
    {
        match self {
            Self::Bluez(native) | Self::Android(native) | Self::Mac(native) => {
                relay(native.stack.get_flags())
            },
            Self::Empty => Err(BluetoothError::NotSupported),
            Self::Mock(fake) => forward(mock::characteristic_get_flags(fake)),
        }
    }

    /// Scripts the flags of the characteristic. Test surface: refused on every
    /// handle that is not on the test stack.
    pub fn set_flags(&self, flags: Vec<String>) -> (r: Result<(), BluetoothError>)
        ensures
            self.backend().answers_scripted(r),
    {
        match self.test_surface() {
            Ok(fake) => forward(mock::characteristic_set_flags(fake, flags)),
            Err(refusal) => Err(refusal),
        }
    }

    /// The descriptors of the characteristic, as handles on the stack of this
    /// handle.
    ///
    /// The stack lists the identifiers and each becomes a handle, see
    /// `from_listing`.
    pub fn get_gatt_descriptors(&self) -> (r: Result<Vec<BluetoothGATTDescriptor>, BluetoothError>)
        ensures
            self.backend().answers(r),
            r matches Ok(handles) ==> forall|i: int|
                0 <= i < handles@.len() ==> (#[trigger] handles@[i]).backend()
                    == self.backend(),
    {
        let listed = match self {
            Self::Bluez(native) | Self::Android(native) | Self::Mac(native) => {
                relay(native.stack.get_gatt_descriptors())
            },
            Self::Empty => Err(BluetoothError::NotSupported),
            Self::Mock(fake) => forward(mock::characteristic_get_gatt_descriptors(fake)),
        };
        BluetoothGATTDescriptor::from_listing(self, listed)
    }

    /// Reads the value of the characteristic from the remote device.
    pub fn read_value(&self) -> (r: Result<Vec<u8>, BluetoothError>)
        ensures
            self.backend().answers(r),
    {
        match self {
            Self::Bluez(native) | Self::Android(native) | Self::Mac(native) => {
                relay(native.stack.read_value())
            },
            Self::Empty => Err(BluetoothError::NotSupported),
            Self::Mock(fake) => forward(mock::characteristic_read_value(fake)),
        }
    }

    /// Writes `values` to the characteristic on the remote device.
    pub fn write_value(&self, values: Vec<u8>) -> (r: Result<(), BluetoothError>)
        ensures
            self.backend().answers(r),
    {
        match self {
            Self::Bluez(native) | Self::Android(native) | Self::Mac(native) => {
                relay(native.stack.write_value(values))
            },
            Self::Empty => Err(BluetoothError::NotSupported),
            Self::Mock(fake) => forward(mock::characteristic_write_value(fake, values)),
        }
    }

    /// Asks the remote device to notify of changes of the value.
    pub fn start_notify(&self) -> (r: Result<(), BluetoothError>)
        ensures
            self.backend().answers(r),
    {
        match self {
            Self::Bluez(native) | Self::Android(native) | Self::Mac(native) => {
                relay(native.stack.start_notify())
            },
            Self::Empty => Err(BluetoothError::NotSupported),
            Self::Mock(fake) => forward(mock::characteristic_start_notify(fake)),
        }
    }

    /// Asks the remote device to notify no longer.
    pub fn stop_notify(&self) -> (r: Result<(), BluetoothError>)
        ensures
            self.backend().answers(r),
    {
        match self {
            Self::Bluez(native) | Self::Android(native) | Self::Mac(native) => {
                relay(native.stack.stop_notify())
            },
            Self::Empty => Err(BluetoothError::NotSupported),
            Self::Mock(fake) => forward(mock::characteristic_stop_notify(fake)),
        }
    }
}

} // verus!
