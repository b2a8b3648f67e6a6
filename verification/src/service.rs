//! GATT services.

use vstd::prelude::*;
use std::sync::Arc;
use blurmock::fake_service::FakeBluetoothGATTService;
use crate::characteristic::BluetoothGATTCharacteristic;
use crate::device::BluetoothDevice;
use crate::backend::Backend;
use crate::error::{forward, relay, BluetoothError};
use crate::mock;
use crate::native::{share, NativeService};

verus! {

/// A handle to a GATT service.
///
/// The variant is the handle's tag: it says which stack owns the service. The
/// handle shares the native object with every other handle to the same
/// service.
pub enum BluetoothGATTService {
    /// On the Linux system-bus stack.
    Bluez(NativeService),
    /// On the Android stack.
    Android(NativeService),
    /// On the macOS framework stack.
    Mac(NativeService),
    /// Without a native stack.
    Empty,
    /// On the in-memory test stack.
    Mock(Arc<FakeBluetoothGATTService>),
}

impl Clone for BluetoothGATTService {
    /// Another handle to the same service.
    fn clone(&self) -> (r: Self)
        ensures
            r == *self,
    {
        match self {
            Self::Bluez(native) => Self::Bluez(native.clone()),
            Self::Android(native) => Self::Android(native.clone()),
            Self::Mac(native) => Self::Mac(native.clone()),
            Self::Empty => Self::Empty,
            Self::Mock(fake) => Self::Mock(share(fake)),
        }
    }
}

impl BluetoothGATTService {
    /// The stack that owns the object behind this handle.
    pub open spec fn tag(&self) -> Backend {
        match self {
            Self::Bluez(_) => Backend::Bluez,
            Self::Android(_) => Backend::Android,
            Self::Mac(_) => Backend::Mac,
            Self::Empty => Backend::Empty,
            Self::Mock(_) => Backend::Mock,
        }
    }

    /// The stack that owns the object behind this handle.
    #[verifier::when_used_as_spec(tag)]
    pub fn backend(&self) -> (b: Backend)
        ensures
            b == self.tag(),
    {
        match self {
            Self::Bluez(_) => Backend::Bluez,
            Self::Android(_) => Backend::Android,
            Self::Mac(_) => Backend::Mac,
            Self::Empty => Backend::Empty,
            Self::Mock(_) => Backend::Mock,
        }
    }

    /// The way into the test surface: the object on the test stack behind
    /// this handle. Every handle that is not on the test stack is refused
    /// here, with the same failure, before any stack is touched.
    pub fn test_surface(&self) -> (r: Result<
        &Arc<FakeBluetoothGATTService>,
        BluetoothError,
    >)
        ensures
            r matches Ok(fake) ==> *self == Self::Mock(*fake),
            r matches Err(refusal) ==> !self.backend().is_mock() && refusal
                == BluetoothError::NotSupportedOnReal,
    {
        match self {
            Self::Mock(fake) => Ok(fake),
            _ => Err(BluetoothError::NotSupportedOnReal),
        }
    }

    /// The parent under which a mock object can be built: the object on the
    /// test stack behind this handle. Every handle that is not on the test
    /// stack is refused here, with the same failure, and nothing is built.
    pub fn mock_parent(&self) -> (r: Result<
        &Arc<FakeBluetoothGATTService>,
        BluetoothError,
    >)
        ensures
            r matches Ok(fake) ==> *self == Self::Mock(*fake),
            r matches Err(refusal) ==> !self.backend().is_mock() && refusal
                == BluetoothError::NotAMock,
    {
        match self {
            Self::Mock(fake) => Ok(fake),
            _ => Err(BluetoothError::NotAMock),
        }
    }

    /// The handle to the service that `device` knows under the identifier
    /// `service`. The new handle lives on the stack of its parent, whatever
    /// the identifier looks like.
    pub fn create_service(device: &BluetoothDevice, service: String) -> (r: Self)
        ensures
            r.backend() == device.backend(),
    {
        match device {
            BluetoothDevice::Bluez(native) => Self::Bluez(native.stack.service(service)),
            BluetoothDevice::Android(native) => Self::Android(native.stack.service(service)),
            BluetoothDevice::Mac(native) => Self::Mac(native.stack.service(service)),
            BluetoothDevice::Empty => Self::Empty,
            BluetoothDevice::Mock(fake) => {
                Self::Mock(mock::service_new_empty(share(fake), service))
            },
        }
    }

    /// One handle for each identifier in `services`, in the same order, each
    /// on the stack of `device`. No identifier gives no handle.
    pub fn create_services(
        device: &BluetoothDevice,
        services: Vec<String>,
    ) -> (r: Vec<Self>)
        ensures
            r@.len() == services@.len(),
            forall|i: int|
                0 <= i < r@.len() ==> (#[trigger] r@[i]).backend() == device.backend(),
    {
        let mut handles: Vec<Self> = Vec::new();
        let mut i: usize = 0;
        while i < services.len()
            invariant
                i <= services@.len(),
                handles@.len() == i,
                forall|k: int|
                    0 <= k < handles@.len() ==> (#[trigger] handles@[k]).backend()
                        == device.backend(),
            decreases services@.len() - i,
        {
            let handle = Self::create_service(device, services[i].clone());
            handles.push(handle);
            i += 1;
        }
        handles
    }

    /// The handles that come of what the stack of `device` listed.
    ///
    /// A list of identifiers, also an empty one, becomes the list of their
    /// handles. A failure to list stays that failure: no shorter list
    /// stands in for it.
    pub fn from_listing(
        device: &BluetoothDevice,
        listed: Result<Vec<String>, BluetoothError>,
    ) -> (r: Result<Vec<Self>, BluetoothError>)
        ensures
            listed matches Err(failure) ==> r == Err::<Vec<Self>, BluetoothError>(failure),
            listed matches Ok(ids) ==> r matches Ok(handles) && handles@.len() == ids@.len()
                && forall|i: int|
                    0 <= i < handles@.len() ==> (#[trigger] handles@[i]).backend()
                        == device.backend(),
    {
        match listed {
            Ok(ids) => Ok(Self::create_services(device, ids)),
            Err(failure) => Err(failure),
        }
    }

    /// Builds the mock service `service` under `device`.
    ///
    /// Succeeds exactly when `device` is on the test stack, and the new handle
    /// is on the test stack too. Under any other parent nothing is built and
    /// the "not a mock" failure is returned.
    pub fn create_mock_service(
        device: BluetoothDevice,
        service: String,
    ) -> (r: Result<Self, BluetoothError>)
        ensures
            r matches Ok(handle) ==> device.backend().is_mock() && handle.backend()
                == Backend::Mock,
            r matches Err(failure) ==> !device.backend().is_mock() && failure
                == BluetoothError::NotAMock,
    {
        match device.mock_parent() {
            Ok(fake) => Ok(Self::Mock(mock::service_new_empty(share(fake), service))),
            Err(refusal) => Err(refusal),
        }
    }

    /// The identifier under which the stack knows the service; empty where no
    /// stack stands behind the handle.
    pub fn get_id(&self) -> (r: String)
        ensures
            self.backend() == Backend::Empty ==> r@.len() == 0,
    {
        match self {
            Self::Bluez(native) | Self::Android(native) | Self::Mac(native) => {
                native.stack.get_id()
            },
            Self::Empty => String::new(),
            Self::Mock(fake) => mock::service_get_id(fake),
        }
    }

    /// Scripts the identifier of the service. Test surface: done on the test
    /// stack, refused on every other handle.
    pub fn set_id(&self, id: String) -> (r: Result<(), BluetoothError>)
        ensures
            r == self.backend().test_access(),
    {
        match self.test_surface() {
            Ok(fake) => {
                mock::service_set_id(fake, id);
                Ok(())
            },
            Err(refusal) => Err(refusal),
        }
    }

    /// The UUID of the service.
    pub fn get_uuid(&self) -> (r: Result<String, BluetoothError>)
        ensures
            self.backend().answers(r),
    {
        match self {
            Self::Bluez(native) | Self::Android(native) | Self::Mac(native) => {
                relay(native.stack.get_uuid())
            },
            Self::Empty => Err(BluetoothError::NotSupported),
            Self::Mock(fake) => forward(mock::service_get_uuid(fake)),
        }
    }

    /// Scripts the UUID of the service. Test surface: refused on every handle
    /// that is not on the test stack.
    pub fn set_uuid(&self, uuid: String) -> (r: Result<(), BluetoothError>)
        ensures
            self.backend().answers_scripted(r),
    {
        match self.test_surface() {
            Ok(fake) => forward(mock::service_set_uuid(fake, uuid)),
            Err(refusal) => Err(refusal),
        }
    }

    /// Whether the service is a primary service.
    pub fn is_primary(&self) -> (r: Result<bool, BluetoothError>)
        ensures
            self.backend().answers(r),
    {
        match self {
            Self::Bluez(native) | Self::Android(native) | Self::Mac(native) => {
                relay(native.stack.is_primary())
            },
            Self::Empty => Err(BluetoothError::NotSupported),
            Self::Mock(fake) => forward(mock::service_is_primary(fake)),
        }
    }

    /// Scripts whether the service is a primary service. Test surface: refused
    /// on every handle that is not on the test stack.
    pub fn set_primary(&self, primary: bool) -> (r: Result<(), BluetoothError>)
        ensures
            self.backend().answers_scripted(r),
    {
        match self.test_surface() {
            Ok(fake) => forward(mock::service_set_is_primary(fake, primary)),
            Err(refusal) => Err(refusal),
        }
    }

    /// The services that this service includes, as handles under `device`.
    ///
    /// `device` is the device that this service belongs to, so both must be
    /// on one stack. Where they are not, nothing is asked of either stack and
    /// the mismatch is reported as such.
    pub fn get_includes(&self, device: BluetoothDevice) -> (r: Result<Vec<Self>, BluetoothError>)
        ensures
            device.backend() != self.backend() ==> r == Err::<Vec<Self>, BluetoothError>(
                BluetoothError::BackendMismatch,
            ),
            device.backend() == self.backend() ==> self.backend().answers(r),
            r matches Ok(handles) ==> forall|i: int|
                0 <= i < handles@.len() ==> (#[trigger] handles@[i]).backend()
                    == self.backend(),
    {
        if device.backend() != self.backend() {
            return Err(BluetoothError::BackendMismatch);
        }
        let listed = match self {
            Self::Bluez(native) | Self::Android(native) | Self::Mac(native) => {
                relay(native.stack.get_includes())
            },
            Self::Empty => Err(BluetoothError::NotSupported),
            Self::Mock(fake) => forward(mock::service_get_includes(fake)),
        };
        Self::from_listing(&device, listed)
    }

    /// The characteristics of the service, as handles on the stack of this
    /// handle.
    ///
    /// The stack lists the identifiers and each becomes a handle, see
    /// `from_listing`.
    pub fn get_gatt_characteristics(&self) -> (r: Result<
        Vec<BluetoothGATTCharacteristic>,
        BluetoothError,
    >)
        ensures
            self.backend().answers(r),
            r matches Ok(handles) ==> forall|i: int|
                0 <= i < handles@.len() ==> (#[trigger] handles@[i]).backend()
                    == self.backend(),
    {
        let listed = match self {
            Self::Bluez(native) | Self::Android(native) | Self::Mac(native) => {
                relay(native.stack.get_gatt_characteristics())
            },
            Self::Empty => Err(BluetoothError::NotSupported),
            Self::Mock(fake) => forward(mock::service_get_gatt_characteristics(fake)),
        };
        BluetoothGATTCharacteristic::from_listing(self, listed)
    }
}

} // verus!
