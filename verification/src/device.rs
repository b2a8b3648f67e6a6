//! Remote devices.

use vstd::prelude::*;
use std::sync::Arc;
use std::collections::HashMap;
use blurmock::fake_device::FakeBluetoothDevice;
use crate::adapter::BluetoothAdapter;
use crate::service::BluetoothGATTService;
use crate::backend::Backend;
use crate::error::{forward, relay, BluetoothError};
use crate::mock;
use crate::native::{share, NativeDevice};

verus! {

/// A handle to a remote device.
///
/// The variant is the handle's tag: it says which stack owns the device. The
/// handle shares the native object with every other handle to the same
/// device.
pub enum BluetoothDevice {
    /// On the Linux system-bus stack.
    Bluez(NativeDevice),
    /// On the Android stack.
    Android(NativeDevice),
    /// On the macOS framework stack.
    Mac(NativeDevice),
    /// Without a native stack.
    Empty,
    /// On the in-memory test stack.
    Mock(Arc<FakeBluetoothDevice>),
}

impl Clone for BluetoothDevice {
    /// Another handle to the same device.
    fn clone(&self) -> (r: Self)
        ensures
            r == *self,
    {
        match self {
            Self::Bluez(native) => Self::Bluez(native.clone()),
            Self::Android(native) => Self::Android(native.clone()),
            Self::Mac(native) => Self::Mac(native.clone()),
            Self::Empty => Self::Empty,
            Self::Mock(fake) => Self::Mock(share(fake)),
        }
    }
}

impl BluetoothDevice {
    /// The stack that owns the object behind this handle.
    pub open spec fn tag(&self) -> Backend {
        match self {
            Self::Bluez(_) => Backend::Bluez,
            Self::Android(_) => Backend::Android,
            Self::Mac(_) => Backend::Mac,
            Self::Empty => Backend::Empty,
            Self::Mock(_) => Backend::Mock,
        }
    }

    /// The stack that owns the object behind this handle.
    #[verifier::when_used_as_spec(tag)]
    pub fn backend(&self) -> (b: Backend)
        ensures
            b == self.tag(),
    {
        match self {
            Self::Bluez(_) => Backend::Bluez,
            Self::Android(_) => Backend::Android,
            Self::Mac(_) => Backend::Mac,
            Self::Empty => Backend::Empty,
            Self::Mock(_) => Backend::Mock,
        }
    }

    /// The way into the test surface: the object on the test stack behind
    /// this handle. Every handle that is not on the test stack is refused
    /// here, with the same failure, before any stack is touched.
    pub fn test_surface(&self) -> (r: Result<
        &Arc<FakeBluetoothDevice>,
        BluetoothError,
    >)
        ensures
            r matches Ok(fake) ==> *self == Self::Mock(*fake),
            r matches Err(refusal) ==> !self.backend().is_mock() && refusal
                == BluetoothError::NotSupportedOnReal,
    {
        match self {
            Self::Mock(fake) => Ok(fake),
            _ => Err(BluetoothError::NotSupportedOnReal),
        }
    }

    /// The parent under which a mock object can be built: the object on the
    /// test stack behind this handle. Every handle that is not on the test
    /// stack is refused here, with the same failure, and nothing is built.
    pub fn mock_parent(&self) -> (r: Result<
        &Arc<FakeBluetoothDevice>,
        BluetoothError,
    >)
        ensures
            r matches Ok(fake) ==> *self == Self::Mock(*fake),
            r matches Err(refusal) ==> !self.backend().is_mock() && refusal
                == BluetoothError::NotAMock,
    {
        match self {
            Self::Mock(fake) => Ok(fake),
            _ => Err(BluetoothError::NotAMock),
        }
    }

    /// The handle to the device that `adapter` knows under the identifier
    /// `device`. The new handle lives on the stack of its parent, whatever the
    /// identifier looks like.
    pub fn create_device(adapter: &BluetoothAdapter, device: String) -> (r: Self)
        ensures
            r.backend() == adapter.backend(),
    {
        match adapter {
            BluetoothAdapter::Bluez(native) => Self::Bluez(native.stack.device(device)),
            BluetoothAdapter::Android(native) => Self::Android(native.stack.device(device)),
            BluetoothAdapter::Mac(native) => Self::Mac(native.stack.device(device)),
            BluetoothAdapter::Empty => Self::Empty,
            BluetoothAdapter::Mock(fake) => Self::Mock(mock::device_new_empty(share(fake), device)),
        }
    }

    /// One handle for each identifier in `devices`, in the same order, each on
    /// the stack of `adapter`. No identifier gives no handle.
    pub fn create_devices(
        adapter: &BluetoothAdapter,
        devices: Vec<String>,
    ) -> (r: Vec<Self>)
        ensures
            r@.len() == devices@.len(),
            forall|i: int|
                0 <= i < r@.len() ==> (#[trigger] r@[i]).backend() == adapter.backend(),
    {
        let mut handles: Vec<Self> = Vec::new();
        let mut i: usize = 0;
        while i < devices.len()
            invariant
                i <= devices@.len(),
                handles@.len() == i,
                forall|k: int|
                    0 <= k < handles@.len() ==> (#[trigger] handles@[k]).backend()
                        == adapter.backend(),
            decreases devices@.len() - i,
        {
            let handle = Self::create_device(adapter, devices[i].clone());
            handles.push(handle);
            i += 1;
        }
        handles
    }

    /// The handles that come of what the stack of `adapter` listed.
    ///
    /// A list of identifiers, also an empty one, becomes the list of their
    /// handles. A failure to list stays that failure: no shorter list
    /// stands in for it.
    pub fn from_listing(
        adapter: &BluetoothAdapter,
        listed: Result<Vec<String>, BluetoothError>,
    ) -> (r: Result<Vec<Self>, BluetoothError>)
        ensures
            listed matches Err(failure) ==> r == Err::<Vec<Self>, BluetoothError>(failure),
            listed matches Ok(ids) ==> r matches Ok(handles) && handles@.len() == ids@.len()
                && forall|i: int|
                    0 <= i < handles@.len() ==> (#[trigger] handles@[i]).backend()
                        == adapter.backend(),
    {
        match listed {
            Ok(ids) => Ok(Self::create_devices(adapter, ids)),
            Err(failure) => Err(failure),
        }
    }

    /// Builds the mock device `device` under `adapter`.
    ///
    /// Succeeds exactly when `adapter` is on the test stack, and the new
    /// handle is on the test stack too. Under any other parent nothing is
    /// built and the "not a mock" failure is returned.
    pub fn create_mock_device(
        adapter: BluetoothAdapter,
        device: String,
    ) -> (r: Result<Self, BluetoothError>)
        ensures
            r matches Ok(handle) ==> adapter.backend().is_mock() && handle.backend()
                == Backend::Mock,
            r matches Err(failure) ==> !adapter.backend().is_mock() && failure
                == BluetoothError::NotAMock,
    {
        match adapter.mock_parent() {
            Ok(fake) => Ok(Self::Mock(mock::device_new_empty(share(fake), device))),
            Err(refusal) => Err(refusal),
        }
    }

    /// The identifier under which the stack knows the device; empty where no
    /// stack stands behind the handle.
    pub fn get_id(&self) -> (r: String)
        ensures
            self.backend() == Backend::Empty ==> r@.len() == 0,
    {
        match self {
            Self::Bluez(native) | Self::Android(native) | Self::Mac(native) => {
                native.stack.get_id()
            },
            Self::Empty => String::new(),
            Self::Mock(fake) => mock::device_get_id(fake),
        }
    }

    /// Scripts the identifier of the device. Test surface: done on the test
    /// stack, refused on every other handle.
    pub fn set_id(&self, id: String) -> (r: Result<(), BluetoothError>)
        ensures
            r == self.backend().test_access(),
    {
        match self.test_surface() {
            Ok(fake) => {
                mock::device_set_id(fake, id);
                Ok(())
            },
            Err(refusal) => Err(refusal),
        }
    }

    /// The address of the device.
    pub fn get_address(&self) -> (r: Result<String, BluetoothError>)
        ensures
            self.backend().answers(r),
    {
        match self {
            Self::Bluez(native) | Self::Android(native) | Self::Mac(native) => {
                relay(native.stack.get_address())
            },
            Self::Empty => Err(BluetoothError::NotSupported),
            Self::Mock(fake) => forward(mock::device_get_address(fake)),
        }
    }

    /// Scripts the address of the device. Test surface: refused on every
    /// handle that is not on the test stack.
    pub fn set_address(&self, address: String) -> (r: Result<(), BluetoothError>)
        ensures
            self.backend().answers_scripted(r),
    {
        match self.test_surface() {
            Ok(fake) => forward(mock::device_set_address(fake, address)),
            Err(refusal) => Err(refusal),
        }
    }

    /// The name of the device.
    pub fn get_name(&self) -> (r: Result<String, BluetoothError>)
        ensures
            self.backend().answers(r),
    {
        match self {
            Self::Bluez(native) | Self::Android(native) | Self::Mac(native) => {
                relay(native.stack.get_name())
            },
            Self::Empty => Err(BluetoothError::NotSupported),
            Self::Mock(fake) => forward(mock::device_get_name(fake)),
        }
    }

    /// Scripts the name of the device. Test surface: refused on every handle
    /// that is not on the test stack.
    pub fn set_name(&self, name: Option<String>) -> (r: Result<(), BluetoothError>)
        ensures
            self.backend().answers_scripted(r),
    {
        match self.test_surface() {
            Ok(fake) => forward(mock::device_set_name(fake, name)),
            Err(refusal) => Err(refusal),
        }
    }

    /// The icon name of the device.
    pub fn get_icon(&self) -> (r: Result<String, BluetoothError>)
        ensures
            self.backend().answers(r),
    {
        match self {
            Self::Bluez(native) | Self::Android(native) | Self::Mac(native) => {
                relay(native.stack.get_icon())
            },
            Self::Empty => Err(BluetoothError::NotSupported),
            Self::Mock(fake) => forward(mock::device_get_icon(fake)),
        }
    }

    /// Scripts the icon name of the device. Test surface: refused on every
    /// handle that is not on the test stack.
    pub fn set_icon(&self, icon: String) -> (r: Result<(), BluetoothError>)
        ensures
            self.backend().answers_scripted(r),
    {
        match self.test_surface() {
            Ok(fake) => forward(mock::device_set_icon(fake, icon)),
            Err(refusal) => Err(refusal),
        }
    }

    /// The class of the device.
    pub fn get_class(&self) -> (r: Result<u32, BluetoothError>)
        ensures
            self.backend().answers(r),
    {
        match self {
            Self::Bluez(native) | Self::Android(native) | Self::Mac(native) => {
                relay(native.stack.get_class())
            },
            Self::Empty => Err(BluetoothError::NotSupported),
            Self::Mock(fake) => forward(mock::device_get_class(fake)),
        }
    }

    /// Scripts the class of the device. Test surface: refused on every handle
    /// that is not on the test stack.
    pub fn set_class(&self, class: u32) -> (r: Result<(), BluetoothError>)
        ensures
            self.backend().answers_scripted(r),
    {
        match self.test_surface() {
            Ok(fake) => forward(mock::device_set_class(fake, class)),
            Err(refusal) => Err(refusal),
        }
    }

    /// The appearance of the device.
    pub fn get_appearance(&self) -> (r: Result<u16, BluetoothError>)
        ensures
            self.backend().answers(r),
    {
        match self {
            Self::Bluez(native) | Self::Android(native) | Self::Mac(native) => {
                relay(native.stack.get_appearance())
            },
            Self::Empty => Err(BluetoothError::NotSupported),
            Self::Mock(fake) => forward(mock::device_get_appearance(fake)),
        }
    }

    /// Scripts the appearance of the device. Test surface: refused on every
    /// handle that is not on the test stack.
    pub fn set_appearance(&self, appearance: u16) -> (r: Result<(), BluetoothError>)
        ensures
            self.backend().answers_scripted(r),
    {
        match self.test_surface() {
            Ok(fake) => forward(mock::device_set_appearance(fake, Some(appearance))),
            Err(refusal) => Err(refusal),
        }
    }

    /// The UUIDs of the services of the device.
    pub fn get_uuids(&self) -> (r: Result<Vec<String>, BluetoothError>)
        ensures
            self.backend().answers(r),
    {
        match self {
            Self::Bluez(native) | Self::Android(native) | Self::Mac(native) => {
                relay(native.stack.get_uuids())
            },
            Self::Empty => Err(BluetoothError::NotSupported),
            Self::Mock(fake) => forward(mock::device_get_uuids(fake)),
        }
    }

    /// Scripts the UUIDs of the services of the device. Test surface: refused
    /// on every handle that is not on the test stack.
    pub fn set_uuids(&self, uuids: Vec<String>) -> (r: Result<(), BluetoothError>)
        ensures
            self.backend().answers_scripted(r),
    {
        match self.test_surface() {
            Ok(fake) => forward(mock::device_set_uuids(fake, uuids)),
            Err(refusal) => Err(refusal),
        }
    }

    /// Whether the device is paired.
    pub fn is_paired(&self) -> (r: Result<bool, BluetoothError>)
        ensures
            self.backend().answers(r),
    {
        match self {
            Self::Bluez(native) | Self::Android(native) | Self::Mac(native) => {
                relay(native.stack.is_paired())
            },
            Self::Empty => Err(BluetoothError::NotSupported),
            Self::Mock(fake) => forward(mock::device_is_paired(fake)),
        }
    }

    /// Scripts whether the device is paired. Test surface: refused on every
    /// handle that is not on the test stack.
    pub fn set_paired(&self, paired: bool) -> (r: Result<(), BluetoothError>)
        ensures
            self.backend().answers_scripted(r),
    {
        match self.test_surface() {
            Ok(fake) => forward(mock::device_set_paired(fake, paired)),
            Err(refusal) => Err(refusal),
        }
    }

    /// Whether the device is connected.
    pub fn is_connected(&self) -> (r: Result<bool, BluetoothError>)
        ensures
            self.backend().answers(r),
    {
        match self {
            Self::Bluez(native) | Self::Android(native) | Self::Mac(native) => {
                relay(native.stack.is_connected())
            },
            Self::Empty => Err(BluetoothError::NotSupported),
            Self::Mock(fake) => forward(mock::device_is_connected(fake)),
        }
    }

    /// Scripts whether the device is connected. Test surface: refused on every
    /// handle that is not on the test stack.
    pub fn set_connected(&self, connected: bool) -> (r: Result<(), BluetoothError>)
        ensures
            self.backend().answers_scripted(r),
    {
        match self.test_surface() {
            Ok(fake) => forward(mock::device_set_connected(fake, connected)),
            Err(refusal) => Err(refusal),
        }
    }

    /// Whether the device accepts a connection. Test surface: refused on every
    /// handle that is not on the test stack.
    pub fn is_connectable(&self) -> (r: Result<bool, BluetoothError>)
        ensures
            self.backend().answers_scripted(r),
    {
        match self.test_surface() {
            Ok(fake) => forward(mock::device_is_connectable(fake)),
            Err(refusal) => Err(refusal),
        }
    }

    /// Scripts whether the device accepts a connection. Test surface: refused
    /// on every handle that is not on the test stack.
    pub fn set_connectable(&self, connectable: bool) -> (r: Result<(), BluetoothError>)
        ensures
            self.backend().answers_scripted(r),
    {
        match self.test_surface() {
            Ok(fake) => forward(mock::device_set_connectable(fake, connectable)),
            Err(refusal) => Err(refusal),
        }
    }

    /// Whether the device is trusted.
    pub fn is_trusted(&self) -> (r: Result<bool, BluetoothError>)
        ensures
            self.backend().answers(r),
    {
        match self {
            Self::Bluez(native) | Self::Android(native) | Self::Mac(native) => {
                relay(native.stack.is_trusted())
            },
            Self::Empty => Err(BluetoothError::NotSupported),
            Self::Mock(fake) => forward(mock::device_is_trusted(fake)),
        }
    }

    /// Scripts whether the device is trusted. Test surface: refused on every
    /// handle that is not on the test stack.
    pub fn set_trusted(&self, trusted: bool) -> (r: Result<(), BluetoothError>)
        ensures
            self.backend().answers_scripted(r),
    {
        match self.test_surface() {
            Ok(fake) => forward(mock::device_set_trusted(fake, trusted)),
            Err(refusal) => Err(refusal),
        }
    }

    /// Whether the device is blocked.
    pub fn is_blocked(&self) -> (r: Result<bool, BluetoothError>)
        ensures
            self.backend().answers(r),
    {
        match self {
            Self::Bluez(native) | Self::Android(native) | Self::Mac(native) => {
                relay(native.stack.is_blocked())
            },
            Self::Empty => Err(BluetoothError::NotSupported),
            Self::Mock(fake) => forward(mock::device_is_blocked(fake)),
        }
    }

    /// Scripts whether the device is blocked. Test surface: refused on every
    /// handle that is not on the test stack.
    pub fn set_blocked(&self, blocked: bool) -> (r: Result<(), BluetoothError>)
        ensures
            self.backend().answers_scripted(r),
    {
        match self.test_surface() {
            Ok(fake) => forward(mock::device_set_blocked(fake, blocked)),
            Err(refusal) => Err(refusal),
        }
    }

    /// The alias of the device.
    pub fn get_alias(&self) -> (r: Result<String, BluetoothError>)
        ensures
            self.backend().answers(r),
    {
        match self {
            Self::Bluez(native) | Self::Android(native) | Self::Mac(native) => {
                relay(native.stack.get_alias())
            },
            Self::Empty => Err(BluetoothError::NotSupported),
            Self::Mock(fake) => forward(mock::device_get_alias(fake)),
        }
    }

    /// Scripts the alias of the device. Test surface: refused on every handle
    /// that is not on the test stack.
    pub fn set_alias(&self, alias: String) -> (r: Result<(), BluetoothError>)
        ensures
            self.backend().answers_scripted(r),
    {
        match self.test_surface() {
            Ok(fake) => forward(mock::device_set_alias(fake, alias)),
            Err(refusal) => Err(refusal),
        }
    }

    /// Whether the device uses legacy pairing.
    pub fn is_legacy_pairing(&self) -> (r: Result<bool, BluetoothError>)
        ensures
            self.backend().answers(r),
    {
        match self {
            Self::Bluez(native) | Self::Android(native) | Self::Mac(native) => {
                relay(native.stack.is_legacy_pairing())
            },
            Self::Empty => Err(BluetoothError::NotSupported),
            Self::Mock(fake) => forward(mock::device_is_legacy_pairing(fake)),
        }
    }

    /// Scripts whether the device uses legacy pairing. Test surface: refused
    /// on every handle that is not on the test stack.
    pub fn set_legacy_pairing(&self, legacy_pairing: bool) -> (r: Result<(), BluetoothError>)
        ensures
            self.backend().answers_scripted(r),
    {
        match self.test_surface() {
            Ok(fake) => forward(mock::device_set_legacy_pairing(fake, legacy_pairing)),
            Err(refusal) => Err(refusal),
        }
    }

    /// The source of the vendor identifier of the device. Only a platform
    /// stack can tell; every other handle reports that it is not supported.
    pub fn get_vendor_id_source(&self) -> (r: Result<String, BluetoothError>)
        ensures
            self.backend().answers_on_native_only(r),
    {
        match self {
            Self::Bluez(native) | Self::Android(native) | Self::Mac(native) => {
                relay(native.stack.get_vendor_id_source())
            },
            _ => Err(BluetoothError::NotSupported),
        }
    }

    /// The vendor identifier of the device. Only a platform stack can tell;
    /// every other handle reports that it is not supported.
    pub fn get_vendor_id(&self) -> (r: Result<u32, BluetoothError>)
        ensures
            self.backend().answers_on_native_only(r),
    {
        match self {
            Self::Bluez(native) | Self::Android(native) | Self::Mac(native) => {
                relay(native.stack.get_vendor_id())
            },
            _ => Err(BluetoothError::NotSupported),
        }
    }

    /// The product identifier of the device. Only a platform stack can tell;
    /// every other handle reports that it is not supported.
    pub fn get_product_id(&self) -> (r: Result<u32, BluetoothError>)
        ensures
            self.backend().answers_on_native_only(r),
    {
        match self {
            Self::Bluez(native) | Self::Android(native) | Self::Mac(native) => {
                relay(native.stack.get_product_id())
            },
            _ => Err(BluetoothError::NotSupported),
        }
    }

    /// The device identifier of the device. Only a platform stack can tell;
    /// every other handle reports that it is not supported.
    pub fn get_device_id(&self) -> (r: Result<u32, BluetoothError>)
        ensures
            self.backend().answers_on_native_only(r),
    {
        match self {
            Self::Bluez(native) | Self::Android(native) | Self::Mac(native) => {
                relay(native.stack.get_device_id())
            },
            _ => Err(BluetoothError::NotSupported),
        }
    }

    /// The modalias of the device: the source of the vendor identifier, then
    /// the vendor, product and device identifiers. Only a platform stack can
    /// tell; every other handle reports that it is not supported.
    pub fn get_modalias(&self) -> (r: Result<(String, u32, u32, u32), BluetoothError>)
        ensures
            self.backend().answers_on_native_only(r),
    {
        match self {
            Self::Bluez(native) | Self::Android(native) | Self::Mac(native) => {
                relay(native.stack.get_modalias())
            },
            _ => Err(BluetoothError::NotSupported),
        }
    }

    /// Scripts the modalias of the device. Test surface: refused on every
    /// handle that is not on the test stack.
    pub fn set_modalias(&self, modalias: String) -> (r: Result<(), BluetoothError>)
        ensures
            self.backend().answers_scripted(r),
    {
        match self.test_surface() {
            Ok(fake) => forward(mock::device_set_modalias(fake, modalias)),
            Err(refusal) => Err(refusal),
        }
    }

    /// The signal strength of the device.
    pub fn get_rssi(&self) -> (r: Result<i16, BluetoothError>)
        ensures
            self.backend().answers(r),
    {
        match self {
            Self::Bluez(native) | Self::Android(native) | Self::Mac(native) => {
                relay(native.stack.get_rssi())
            },
            Self::Empty => Err(BluetoothError::NotSupported),
            Self::Mock(fake) => forward(mock::device_get_rssi(fake)),
        }
    }

    /// Scripts the signal strength of the device. Test surface: refused on
    /// every handle that is not on the test stack.
    pub fn set_rssi(&self, rssi: i16) -> (r: Result<(), BluetoothError>)
        ensures
            self.backend().answers_scripted(r),
    {
        match self.test_surface() {
            Ok(fake) => forward(mock::device_set_rssi(fake, Some(rssi))),
            Err(refusal) => Err(refusal),
        }
    }

    /// The transmission power of the device.
    pub fn get_tx_power(&self) -> (r: Result<i16, BluetoothError>)
        ensures
            self.backend().answers(r),
    {
        match self {
            Self::Bluez(native) | Self::Android(native) | Self::Mac(native) => {
                relay(native.stack.get_tx_power())
            },
            Self::Empty => Err(BluetoothError::NotSupported),
            Self::Mock(fake) => forward(mock::device_get_tx_power(fake)),
        }
    }

    /// Scripts the transmission power of the device. Test surface: refused on
    /// every handle that is not on the test stack.
    pub fn set_tx_power(&self, tx_power: i16) -> (r: Result<(), BluetoothError>)
        ensures
            self.backend().answers_scripted(r),
    {
        match self.test_surface() {
            Ok(fake) => forward(mock::device_set_tx_power(fake, Some(tx_power))),
            Err(refusal) => Err(refusal),
        }
    }

    /// The manufacturer data, keyed by company identifier, of the device.
    pub fn get_manufacturer_data(&self) -> (r: Result<HashMap<u16, Vec<u8>>, BluetoothError>)
        ensures
            self.backend().answers(r),
    {
        match self {
            Self::Bluez(native) | Self::Android(native) | Self::Mac(native) => {
                relay(native.stack.get_manufacturer_data())
            },
            Self::Empty => Err(BluetoothError::NotSupported),
            Self::Mock(fake) => forward(mock::device_get_manufacturer_data(fake)),
        }
    }

    /// Scripts the manufacturer data, keyed by company identifier, of the
    /// device. Test surface: refused on every handle that is not on the test
    /// stack.
    pub fn set_manufacturer_data(&self, manufacturer_data: HashMap<u16, Vec<u8>>) -> (r: Result<
        (),
        BluetoothError,
    >)
        ensures
            self.backend().answers_scripted(r),
    {
        match self.test_surface() {
            Ok(fake) => forward(mock::device_set_manufacturer_data(fake, Some(manufacturer_data))),
            Err(refusal) => Err(refusal),
        }
    }

    /// The service data, keyed by the UUID of the service, of the device.
    pub fn get_service_data(&self) -> (r: Result<HashMap<String, Vec<u8>>, BluetoothError>)
        ensures
            self.backend().answers(r),
    {
        match self {
            Self::Bluez(native) | Self::Android(native) | Self::Mac(native) => {
                relay(native.stack.get_service_data())
            },
            Self::Empty => Err(BluetoothError::NotSupported),
            Self::Mock(fake) => forward(mock::device_get_service_data(fake)),
        }
    }

    /// Scripts the service data, keyed by the UUID of the service, of the
    /// device. Test surface: refused on every handle that is not on the test
    /// stack.
    pub fn set_service_data(&self, service_data: HashMap<String, Vec<u8>>) -> (r: Result<
        (),
        BluetoothError,
    >)
        ensures
            self.backend().answers_scripted(r),
    {
        match self.test_surface() {
            Ok(fake) => forward(mock::device_set_service_data(fake, Some(service_data))),
            Err(refusal) => Err(refusal),
        }
    }

    /// The GATT services of the device, as handles on the stack of this
    /// handle.
    ///
    /// The stack lists the identifiers and each becomes a handle, see
    /// `from_listing`.
    pub fn get_gatt_services(&self) -> (r: Result<Vec<BluetoothGATTService>, BluetoothError>)
        ensures
            self.backend().answers(r),
            r matches Ok(handles) ==> forall|i: int|
                0 <= i < handles@.len() ==> (#[trigger] handles@[i]).backend()
                    == self.backend(),
    {
        let listed = match self {
            Self::Bluez(native) | Self::Android(native) | Self::Mac(native) => {
                relay(native.stack.get_gatt_services())
            },
            Self::Empty => Err(BluetoothError::NotSupported),
            Self::Mock(fake) => forward(mock::device_get_gatt_services(fake)),
        };
        BluetoothGATTService::from_listing(self, listed)
    }

    /// Connects to the device.
    pub fn connect(&self) -> (r: Result<(), BluetoothError>)
        ensures
            self.backend().answers(r),
    {
        match self {
            Self::Bluez(native) | Self::Android(native) | Self::Mac(native) => {
                relay(native.stack.connect())
            },
            Self::Empty => Err(BluetoothError::NotSupported),
            Self::Mock(fake) => forward(mock::device_connect(fake)),
        }
    }

    /// Disconnects from the device.
    pub fn disconnect(&self) -> (r: Result<(), BluetoothError>)
        ensures
            self.backend().answers(r),
    {
        match self {
            Self::Bluez(native) | Self::Android(native) | Self::Mac(native) => {
                relay(native.stack.disconnect())
            },
            Self::Empty => Err(BluetoothError::NotSupported),
            Self::Mock(fake) => forward(mock::device_disconnect(fake)),
        }
    }

    /// Connects the profile `uuid` of the device. Only a platform stack can
    /// tell; every other handle reports that it is not supported.
    pub fn connect_profile(&self, uuid: String) -> (r: Result<(), BluetoothError>)
        ensures
            self.backend().answers_on_native_only(r),
    {
        match self {
            Self::Bluez(native) | Self::Android(native) | Self::Mac(native) => {
                relay(native.stack.connect_profile(uuid))
            },
            _ => Err(BluetoothError::NotSupported),
        }
    }

    /// Disconnects the profile `uuid` of the device. Only a platform stack can
    /// tell; every other handle reports that it is not supported.
    pub fn disconnect_profile(&self, uuid: String) -> (r: Result<(), BluetoothError>)
        ensures
            self.backend().answers_on_native_only(r),
    {
        match self {
            Self::Bluez(native) | Self::Android(native) | Self::Mac(native) => {
                relay(native.stack.disconnect_profile(uuid))
            },
            _ => Err(BluetoothError::NotSupported),
        }
    }

    /// Pairs with the device.
    pub fn pair(&self) -> (r: Result<(), BluetoothError>)
        ensures
            self.backend().answers(r),
    {
        match self {
            Self::Bluez(native) | Self::Android(native) | Self::Mac(native) => {
                relay(native.stack.pair())
            },
            Self::Empty => Err(BluetoothError::NotSupported),
            Self::Mock(fake) => forward(mock::device_pair(fake)),
        }
    }

    /// Cancels a pairing with the device.
    pub fn cancel_pairing(&self) -> (r: Result<(), BluetoothError>)
        ensures
            self.backend().answers(r),
    {
        match self {
            Self::Bluez(native) | Self::Android(native) | Self::Mac(native) => {
                relay(native.stack.cancel_pairing())
            },
            Self::Empty => Err(BluetoothError::NotSupported),
            Self::Mock(fake) => forward(mock::device_cancel_pairing(fake)),
        }
    }
}

} // verus!
