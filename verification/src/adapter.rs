//! Local adapters, the roots of the object graph.

use vstd::prelude::*;
use std::sync::Arc;
use blurmock::fake_adapter::FakeBluetoothAdapter;
use crate::device::BluetoothDevice;
use crate::lookup::{
    absent_address_is_not_found, find_address, is_settled, locates, place_of, settles,
    single_address_is_found,
};
use crate::session::{BluetoothDiscoverySession, SessionLink, SessionState};
use crate::backend::Backend;
use crate::error::{forward, relay, BluetoothError};
use crate::mock;
use crate::native::{share, NativeAdapter};

verus! {

/// A handle to a local Bluetooth adapter.
///
/// The variant is the handle's tag: it says which stack owns the adapter. The
/// handle shares the native object with every other handle to the same
/// adapter.
pub enum BluetoothAdapter {
    /// On the Linux system-bus stack.
    Bluez(NativeAdapter),
    /// On the Android stack.
    Android(NativeAdapter),
    /// On the macOS framework stack.
    Mac(NativeAdapter),
    /// Without a native stack.
    Empty,
    /// On the in-memory test stack.
    Mock(Arc<FakeBluetoothAdapter>),
}

impl Clone for BluetoothAdapter {
    /// Another handle to the same adapter.
    fn clone(&self) -> (r: Self)
        ensures
            r == *self,
    {
        match self {
            Self::Bluez(native) => Self::Bluez(native.clone()),
            Self::Android(native) => Self::Android(native.clone()),
            Self::Mac(native) => Self::Mac(native.clone()),
            Self::Empty => Self::Empty,
            Self::Mock(fake) => Self::Mock(share(fake)),
        }
    }
}

impl BluetoothAdapter {
    /// The stack that owns the object behind this handle.
    pub open spec fn tag(&self) -> Backend {
        match self {
            Self::Bluez(_) => Backend::Bluez,
            Self::Android(_) => Backend::Android,
            Self::Mac(_) => Backend::Mac,
            Self::Empty => Backend::Empty,
            Self::Mock(_) => Backend::Mock,
        }
    }

    /// The stack that owns the object behind this handle.
    #[verifier::when_used_as_spec(tag)]
    pub fn backend(&self) -> (b: Backend)
        ensures
            b == self.tag(),
    {
        match self {
            Self::Bluez(_) => Backend::Bluez,
            Self::Android(_) => Backend::Android,
            Self::Mac(_) => Backend::Mac,
            Self::Empty => Backend::Empty,
            Self::Mock(_) => Backend::Mock,
        }
    }

    /// The way into the test surface: the object on the test stack behind
    /// this handle. Every handle that is not on the test stack is refused
    /// here, with the same failure, before any stack is touched.
    pub fn test_surface(&self) -> (r: Result<
        &Arc<FakeBluetoothAdapter>,
        BluetoothError,
    >)
        ensures
            r matches Ok(fake) ==> *self == Self::Mock(*fake),
            r matches Err(refusal) ==> !self.backend().is_mock() && refusal
                == BluetoothError::NotSupportedOnReal,
    {
        match self {
            Self::Mock(fake) => Ok(fake),
            _ => Err(BluetoothError::NotSupportedOnReal),
        }
    }

    /// The parent under which a mock object can be built: the object on the
    /// test stack behind this handle. Every handle that is not on the test
    /// stack is refused here, with the same failure, and nothing is built.
    pub fn mock_parent(&self) -> (r: Result<
        &Arc<FakeBluetoothAdapter>,
        BluetoothError,
    >)
        ensures
            r matches Ok(fake) ==> *self == Self::Mock(*fake),
            r matches Err(refusal) ==> !self.backend().is_mock() && refusal
                == BluetoothError::NotAMock,
    {
        match self {
            Self::Mock(fake) => Ok(fake),
            _ => Err(BluetoothError::NotAMock),
        }
    }

    /// The adapter of the stack that the library itself is linked with, which
    /// is none: every operation on it reports that it is not supported. A
    /// program that brings a platform stack builds its adapter handle from
    /// that stack instead.
    pub fn new() -> (r: Result<BluetoothAdapter, BluetoothError>)
        ensures
            r == Ok::<BluetoothAdapter, BluetoothError>(BluetoothAdapter::Empty),
    {
        Ok(BluetoothAdapter::Empty)
    }

    /// A new adapter on the in-memory test stack, which knows no device.
    pub fn new_mock() -> (r: Result<BluetoothAdapter, BluetoothError>)
        ensures
            r matches Ok(adapter) && adapter.backend() == Backend::Mock,
    {
        Ok(BluetoothAdapter::Mock(mock::adapter_new_empty()))
    }

    /// The identifier under which the stack knows the adapter; empty where no
    /// stack stands behind the handle.
    pub fn get_id(&self) -> (r: String)
        ensures
            self.backend() == Backend::Empty ==> r@.len() == 0,
    {
        match self {
            Self::Bluez(native) | Self::Android(native) | Self::Mac(native) => {
                native.stack.get_id()
            },
            Self::Empty => String::new(),
            Self::Mock(fake) => mock::adapter_get_id(fake),
        }
    }

    /// Scripts the identifier of the adapter. Test surface: done on the test
    /// stack, refused on every other handle.
    pub fn set_id(&self, id: String) -> (r: Result<(), BluetoothError>)
        ensures
            r == self.backend().test_access(),
    {
        match self.test_surface() {
            Ok(fake) => {
                mock::adapter_set_id(fake, id);
                Ok(())
            },
            Err(refusal) => Err(refusal),
        }
    }

    /// The devices that the adapter knows, as handles on the stack of this
    /// handle.
    ///
    /// The stack lists the identifiers and each becomes a handle, see
    /// `from_listing`.
    pub fn get_devices(&self) -> (r: Result<Vec<BluetoothDevice>, BluetoothError>)
        ensures
            self.backend().answers(r),
            r matches Ok(handles) ==> forall|i: int|
                0 <= i < handles@.len() ==> (#[trigger] handles@[i]).backend()
                    == self.backend(),
    {
        let listed = match self {
            Self::Bluez(native) | Self::Android(native) | Self::Mac(native) => {
                relay(native.stack.get_device_list())
            },
            Self::Empty => Err(BluetoothError::NotSupported),
            Self::Mock(fake) => forward(mock::adapter_get_device_list(fake)),
        };
        BluetoothDevice::from_listing(self, listed)
    }

    /// Asks `devices` for their addresses, in their order and no further than
    /// a search for `address` needs: the first device that has the address,
    /// or that fails to tell its own, is the last one asked.
    ///
    /// What the result holds is what the devices told, each as its stack
    /// answered.
    pub fn ask_addresses(devices: &Vec<BluetoothDevice>, address: &String) -> (told: Vec<
        Result<String, BluetoothError>,
    >)
        ensures
            told@.len() <= devices@.len(),
            forall|k: int| 0 <= k < told@.len() - 1 ==> !settles(#[trigger] told@[k], address@),
            told@.len() < devices@.len() ==> told@.len() > 0 && settles(
                told@[told@.len() - 1],
                address@,
            ),
            forall|k: int|
                0 <= k < told@.len() ==> devices@[k].backend().answers(#[trigger] told@[k]),
    {
        let mut told: Vec<Result<String, BluetoothError>> = Vec::new();
        let mut settled = false;
        while !settled && told.len() < devices.len()
            invariant
                told@.len() <= devices@.len(),
                settled ==> told@.len() > 0 && settles(told@[told@.len() - 1], address@),
                !settled ==> forall|k: int|
                    0 <= k < told@.len() ==> !settles(#[trigger] told@[k], address@),
                forall|k: int| 0 <= k < told@.len() - 1 ==> !settles(#[trigger] told@[k], address@),
                forall|k: int|
                    0 <= k < told@.len() ==> devices@[k].backend().answers(#[trigger] told@[k]),
            decreases devices@.len() - told@.len(),
        {
            let answer = devices[told.len()].get_address();
            settled = is_settled(&answer, address);
            told.push(answer);
        }
        told
    }

    /// The device that a search for `address` finds among `devices`, where
    /// `told` holds what they told of their addresses, see `picks`.
    pub fn pick_device(
        devices: Vec<BluetoothDevice>,
        told: Vec<Result<String, BluetoothError>>,
        address: &String,
    ) -> (r: Result<Option<BluetoothDevice>, BluetoothError>)
        ensures
            picks(devices@, told@, address@, r),
    {
        let ghost listed = devices@;
        let ghost all_told = told@;
        let mut devices = devices;
        let mut told = told;
        if told.len() > devices.len() {
            told.truncate(devices.len());
        }
        assert(told@ == heard(listed, all_told));
        match find_address(&told, address) {
            Ok(Some(at)) => {
                assert(locates(
                    heard(listed, all_told),
                    address@,
                    Ok::<Option<usize>, BluetoothError>(Some(at)),
                ));
                Ok(Some(devices.swap_remove(at)))
            },
            Ok(None) => Ok(None),
            Err(failure) => Err(failure),
        }
    }

    /// The device with the address `address`, if the adapter knows one.
    ///
    /// The devices are listed and asked for their addresses one after the
    /// other, as far as needed: the first whose address is `address` is the
    /// answer, and a device before it that fails to tell its address ends
    /// the search with that failure. That no device has the address is an
    /// answer, not a failure. The rule is that of `pick_device`, applied to
    /// the devices that the stack listed and to what `ask_addresses` was
    /// told.
    pub fn get_device(&self, address: String) -> (r: Result<
        Option<BluetoothDevice>,
        BluetoothError,
    >)
        ensures
            self.backend().answers(r),
            r matches Ok(Some(device)) ==> device.backend() == self.backend(),
    {
        let devices = match self.get_devices() {
            Ok(devices) => devices,
            Err(failure) => {
                return Err(failure);
            },
        };
        let told = BluetoothAdapter::ask_addresses(&devices, &address);
        let r = BluetoothAdapter::pick_device(devices, told, &address);
        proof {
            if r is Err {
                let at = place_of(
                    told@,
                    address@,
                    Err::<Option<usize>, BluetoothError>(r->Err_0),
                );
                assert(self.backend().answers(told@[at]));
            }
        }
        r
    }

    /// Builds the mock device `device` under this adapter.
    ///
    /// Succeeds exactly when the adapter is on the test stack, and the new
    /// handle is on the test stack too. Under any other adapter nothing is
    /// built and the "not a mock" failure is returned.
    pub fn create_mock_device(&self, device: String) -> (r: Result<
        BluetoothDevice,
        BluetoothError,
    >)
        ensures
            r matches Ok(handle) ==> self.backend().is_mock() && handle.backend() == Backend::Mock,
            r matches Err(failure) ==> !self.backend().is_mock() && failure
                == BluetoothError::NotAMock,
    {
        match self.mock_parent() {
            Ok(fake) => Ok(BluetoothDevice::Mock(mock::device_new_empty(share(fake), device))),
            Err(refusal) => Err(refusal),
        }
    }

    /// The address of the adapter.
    pub fn get_address(&self) -> (r: Result<String, BluetoothError>)
        ensures
            self.backend().answers(r),
    {
        match self {
            Self::Bluez(native) | Self::Android(native) | Self::Mac(native) => {
                relay(native.stack.get_address())
            },
            Self::Empty => Err(BluetoothError::NotSupported),
            Self::Mock(fake) => forward(mock::adapter_get_address(fake)),
        }
    }

    /// Scripts the address of the adapter. Test surface: refused on every
    /// handle that is not on the test stack.
    pub fn set_address(&self, address: String) -> (r: Result<(), BluetoothError>)
        ensures
            self.backend().answers_scripted(r),
    {
        match self.test_surface() {
            Ok(fake) => forward(mock::adapter_set_address(fake, address)),
            Err(refusal) => Err(refusal),
        }
    }

    /// The name of the adapter.
    pub fn get_name(&self) -> (r: Result<String, BluetoothError>)
        ensures
            self.backend().answers(r),
    {
        match self {
            Self::Bluez(native) | Self::Android(native) | Self::Mac(native) => {
                relay(native.stack.get_name())
            },
            Self::Empty => Err(BluetoothError::NotSupported),
            Self::Mock(fake) => forward(mock::adapter_get_name(fake)),
        }
    }

    /// Scripts the name of the adapter. Test surface: refused on every handle
    /// that is not on the test stack.
    pub fn set_name(&self, name: String) -> (r: Result<(), BluetoothError>)
        ensures
            self.backend().answers_scripted(r),
    {
        match self.test_surface() {
            Ok(fake) => forward(mock::adapter_set_name(fake, name)),
            Err(refusal) => Err(refusal),
        }
    }

    /// The alias of the adapter.
    pub fn get_alias(&self) -> (r: Result<String, BluetoothError>)
        ensures
            self.backend().answers(r),
    {
        match self {
            Self::Bluez(native) | Self::Android(native) | Self::Mac(native) => {
                relay(native.stack.get_alias())
            },
            Self::Empty => Err(BluetoothError::NotSupported),
            Self::Mock(fake) => forward(mock::adapter_get_alias(fake)),
        }
    }

    /// Scripts the alias of the adapter. Test surface: refused on every handle
    /// that is not on the test stack.
    pub fn set_alias(&self, alias: String) -> (r: Result<(), BluetoothError>)
        ensures
            self.backend().answers_scripted(r),
    {
        match self.test_surface() {
            Ok(fake) => forward(mock::adapter_set_alias(fake, alias)),
            Err(refusal) => Err(refusal),
        }
    }

    /// The class of the adapter.
    pub fn get_class(&self) -> (r: Result<u32, BluetoothError>)
        ensures
            self.backend().answers(r),
    {
        match self {
            Self::Bluez(native) | Self::Android(native) | Self::Mac(native) => {
                relay(native.stack.get_class())
            },
            Self::Empty => Err(BluetoothError::NotSupported),
            Self::Mock(fake) => forward(mock::adapter_get_class(fake)),
        }
    }

    /// Scripts the class of the adapter. Test surface: refused on every handle
    /// that is not on the test stack.
    pub fn set_class(&self, class: u32) -> (r: Result<(), BluetoothError>)
        ensures
            self.backend().answers_scripted(r),
    {
        match self.test_surface() {
            Ok(fake) => forward(mock::adapter_set_class(fake, class)),
            Err(refusal) => Err(refusal),
        }
    }

    /// Whether the adapter is powered.
    pub fn is_powered(&self) -> (r: Result<bool, BluetoothError>)
        ensures
            self.backend().answers(r),
    {
        match self {
            Self::Bluez(native) | Self::Android(native) | Self::Mac(native) => {
                relay(native.stack.is_powered())
            },
            Self::Empty => Err(BluetoothError::NotSupported),
            Self::Mock(fake) => forward(mock::adapter_is_powered(fake)),
        }
    }

    /// Scripts whether the adapter is powered. Test surface: refused on every
    /// handle that is not on the test stack.
    pub fn set_powered(&self, powered: bool) -> (r: Result<(), BluetoothError>)
        ensures
            self.backend().answers_scripted(r),
    {
        match self.test_surface() {
            Ok(fake) => forward(mock::adapter_set_powered(fake, powered)),
            Err(refusal) => Err(refusal),
        }
    }

    /// Whether the adapter is present. Only the test stack can tell; every
    /// other handle reports that it is not supported.
    pub fn is_present(&self) -> (r: Result<bool, BluetoothError>)
        ensures
            self.backend().answers_on_mock_only(r),
    {
        match self {
            Self::Mock(fake) => forward(mock::adapter_is_present(fake)),
            _ => Err(BluetoothError::NotSupported),
        }
    }

    /// Scripts whether the adapter is present. Test surface: refused on every
    /// handle that is not on the test stack.
    pub fn set_present(&self, present: bool) -> (r: Result<(), BluetoothError>)
        ensures
            self.backend().answers_scripted(r),
    {
        match self.test_surface() {
            Ok(fake) => forward(mock::adapter_set_present(fake, present)),
            Err(refusal) => Err(refusal),
        }
    }

    /// Whether the adapter is discoverable.
    pub fn is_discoverable(&self) -> (r: Result<bool, BluetoothError>)
        ensures
            self.backend().answers(r),
    {
        match self {
            Self::Bluez(native) | Self::Android(native) | Self::Mac(native) => {
                relay(native.stack.is_discoverable())
            },
            Self::Empty => Err(BluetoothError::NotSupported),
            Self::Mock(fake) => forward(mock::adapter_is_discoverable(fake)),
        }
    }

    /// Scripts whether the adapter is discoverable. Test surface: refused on
    /// every handle that is not on the test stack.
    pub fn set_discoverable(&self, discoverable: bool) -> (r: Result<(), BluetoothError>)
        ensures
            self.backend().answers_scripted(r),
    {
        match self.test_surface() {
            Ok(fake) => forward(mock::adapter_set_discoverable(fake, discoverable)),
            Err(refusal) => Err(refusal),
        }
    }

    /// Whether the adapter is pairable.
    pub fn is_pairable(&self) -> (r: Result<bool, BluetoothError>)
        ensures
            self.backend().answers(r),
    {
        match self {
            Self::Bluez(native) | Self::Android(native) | Self::Mac(native) => {
                relay(native.stack.is_pairable())
            },
            Self::Empty => Err(BluetoothError::NotSupported),
            Self::Mock(fake) => forward(mock::adapter_is_pairable(fake)),
        }
    }

    /// Scripts whether the adapter is pairable. Test surface: refused on every
    /// handle that is not on the test stack.
    pub fn set_pairable(&self, pairable: bool) -> (r: Result<(), BluetoothError>)
        ensures
            self.backend().answers_scripted(r),
    {
        match self.test_surface() {
            Ok(fake) => forward(mock::adapter_set_pairable(fake, pairable)),
            Err(refusal) => Err(refusal),
        }
    }

    /// The pairable timeout of the adapter.
    pub fn get_pairable_timeout(&self) -> (r: Result<u32, BluetoothError>)
        ensures
            self.backend().answers(r),
    {
        match self {
            Self::Bluez(native) | Self::Android(native) | Self::Mac(native) => {
                relay(native.stack.get_pairable_timeout())
            },
            Self::Empty => Err(BluetoothError::NotSupported),
            Self::Mock(fake) => forward(mock::adapter_get_pairable_timeout(fake)),
        }
    }

    /// Scripts the pairable timeout of the adapter. Test surface: refused on
    /// every handle that is not on the test stack.
    pub fn set_pairable_timeout(&self, timeout: u32) -> (r: Result<(), BluetoothError>)
        ensures
            self.backend().answers_scripted(r),
    {
        match self.test_surface() {
            Ok(fake) => forward(mock::adapter_set_pairable_timeout(fake, timeout)),
            Err(refusal) => Err(refusal),
        }
    }

    /// The discoverable timeout of the adapter.
    pub fn get_discoverable_timeout(&self) -> (r: Result<u32, BluetoothError>)
        ensures
            self.backend().answers(r),
    {
        match self {
            Self::Bluez(native) | Self::Android(native) | Self::Mac(native) => {
                relay(native.stack.get_discoverable_timeout())
            },
            Self::Empty => Err(BluetoothError::NotSupported),
            Self::Mock(fake) => forward(mock::adapter_get_discoverable_timeout(fake)),
        }
    }

    /// Scripts the discoverable timeout of the adapter. Test surface: refused
    /// on every handle that is not on the test stack.
    pub fn set_discoverable_timeout(&self, timeout: u32) -> (r: Result<(), BluetoothError>)
        ensures
            self.backend().answers_scripted(r),
    {
        match self.test_surface() {
            Ok(fake) => forward(mock::adapter_set_discoverable_timeout(fake, timeout)),
            Err(refusal) => Err(refusal),
        }
    }

    /// Whether the adapter is discovering.
    pub fn is_discovering(&self) -> (r: Result<bool, BluetoothError>)
        ensures
            self.backend().answers(r),
    {
        match self {
            Self::Bluez(native) | Self::Android(native) | Self::Mac(native) => {
                relay(native.stack.is_discovering())
            },
            Self::Empty => Err(BluetoothError::NotSupported),
            Self::Mock(fake) => forward(mock::adapter_is_discovering(fake)),
        }
    }

    /// Scripts whether the adapter is discovering. Test surface: refused on
    /// every handle that is not on the test stack.
    pub fn set_discovering(&self, discovering: bool) -> (r: Result<(), BluetoothError>)
        ensures
            self.backend().answers_scripted(r),
    {
        match self.test_surface() {
            Ok(fake) => forward(mock::adapter_set_discovering(fake, discovering)),
            Err(refusal) => Err(refusal),
        }
    }

    /// Scripts whether a discovery session on the adapter can be started. Test
    /// surface: refused on every handle that is not on the test stack.
    pub fn set_can_start_discovery(&self, can_start_discovery: bool) -> (r: Result<
        (),
        BluetoothError,
    >)
        ensures
            self.backend().answers_scripted(r),
    {
        match self.test_surface() {
            Ok(fake) => forward(mock::adapter_set_can_start_discovery(fake, can_start_discovery)),
            Err(refusal) => Err(refusal),
        }
    }

    /// Scripts whether a discovery session on the adapter can be stopped. Test
    /// surface: refused on every handle that is not on the test stack.
    pub fn set_can_stop_discovery(&self, can_stop_discovery: bool) -> (r: Result<
        (),
        BluetoothError,
    >)
        ensures
            self.backend().answers_scripted(r),
    {
        match self.test_surface() {
            Ok(fake) => forward(mock::adapter_set_can_stop_discovery(fake, can_stop_discovery)),
            Err(refusal) => Err(refusal),
        }
    }

    /// Opens a discovery session on the adapter. The session lives on the
    /// stack of the adapter and starts out inactive.
    ///
    /// Only a platform stack can refuse, with a failure of its own; every
    /// other adapter gets its session.
    pub fn create_discovery_session(&self) -> (r: Result<
        BluetoothDiscoverySession,
        BluetoothError,
    >)
        ensures
            !self.backend().is_native() ==> r is Ok,
            r matches Err(failure) ==> failure.is_from_stack(),
            r matches Ok(session) ==> session.backend() == self.backend() && session.state()
                == SessionState::Inactive,
    {
        match self {
            Self::Bluez(native) => match relay(native.stack.create_discovery_session()) {
                Ok(session) => Ok(BluetoothDiscoverySession::new(SessionLink::Bluez(session))),
                Err(failure) => Err(failure),
            },
            Self::Android(native) => match relay(native.stack.create_discovery_session()) {
                Ok(session) => Ok(BluetoothDiscoverySession::new(SessionLink::Android(session))),
                Err(failure) => Err(failure),
            },
            Self::Mac(native) => match relay(native.stack.create_discovery_session()) {
                Ok(session) => Ok(BluetoothDiscoverySession::new(SessionLink::Mac(session))),
                Err(failure) => Err(failure),
            },
            Self::Empty => Ok(BluetoothDiscoverySession::new(SessionLink::Empty)),
            Self::Mock(fake) => match mock::session_create(share(fake)) {
                Ok(session) => Ok(
                    BluetoothDiscoverySession::new(SessionLink::Mock(Arc::new(session))),
                ),
                Err(cause) => Err(BluetoothError::Native(cause)),
            },
        }
    }

    /// The UUIDs of the services of the adapter.
    pub fn get_uuids(&self) -> (r: Result<Vec<String>, BluetoothError>)
        ensures
            self.backend().answers(r),
    {
        match self {
            Self::Bluez(native) | Self::Android(native) | Self::Mac(native) => {
                relay(native.stack.get_uuids())
            },
            Self::Empty => Err(BluetoothError::NotSupported),
            Self::Mock(fake) => forward(mock::adapter_get_uuids(fake)),
        }
    }

    /// Scripts the UUIDs of the services of the adapter. Test surface: refused
    /// on every handle that is not on the test stack.
    pub fn set_uuids(&self, uuids: Vec<String>) -> (r: Result<(), BluetoothError>)
        ensures
            self.backend().answers_scripted(r),
    {
        match self.test_surface() {
            Ok(fake) => forward(mock::adapter_set_uuids(fake, uuids)),
            Err(refusal) => Err(refusal),
        }
    }

    /// The source of the vendor identifier of the adapter. Only a platform
    /// stack can tell; every other handle reports that it is not supported.
    pub fn get_vendor_id_source(&self) -> (r: Result<String, BluetoothError>)
        ensures
            self.backend().answers_on_native_only(r),
    {
        match self {
            Self::Bluez(native) | Self::Android(native) | Self::Mac(native) => {
                relay(native.stack.get_vendor_id_source())
            },
            _ => Err(BluetoothError::NotSupported),
        }
    }

    /// The vendor identifier of the adapter. Only a platform stack can tell;
    /// every other handle reports that it is not supported.
    pub fn get_vendor_id(&self) -> (r: Result<u32, BluetoothError>)
        ensures
            self.backend().answers_on_native_only(r),
    {
        match self {
            Self::Bluez(native) | Self::Android(native) | Self::Mac(native) => {
                relay(native.stack.get_vendor_id())
            },
            _ => Err(BluetoothError::NotSupported),
        }
    }

    /// The product identifier of the adapter. Only a platform stack can tell;
    /// every other handle reports that it is not supported.
    pub fn get_product_id(&self) -> (r: Result<u32, BluetoothError>)
        ensures
            self.backend().answers_on_native_only(r),
    {
        match self {
            Self::Bluez(native) | Self::Android(native) | Self::Mac(native) => {
                relay(native.stack.get_product_id())
            },
            _ => Err(BluetoothError::NotSupported),
        }
    }

    /// The device identifier of the adapter. Only a platform stack can tell;
    /// every other handle reports that it is not supported.
    pub fn get_device_id(&self) -> (r: Result<u32, BluetoothError>)
        ensures
            self.backend().answers_on_native_only(r),
    {
        match self {
            Self::Bluez(native) | Self::Android(native) | Self::Mac(native) => {
                relay(native.stack.get_device_id())
            },
            _ => Err(BluetoothError::NotSupported),
        }
    }

    /// The modalias of the adapter: the source of the vendor identifier, then
    /// the vendor, product and device identifiers. Only a platform stack can
    /// tell; every other handle reports that it is not supported.
    pub fn get_modalias(&self) -> (r: Result<(String, u32, u32, u32), BluetoothError>)
        ensures
            self.backend().answers_on_native_only(r),
    {
        match self {
            Self::Bluez(native) | Self::Android(native) | Self::Mac(native) => {
                relay(native.stack.get_modalias())
            },
            _ => Err(BluetoothError::NotSupported),
        }
    }

    /// Scripts the modalias of the adapter. Test surface: refused on every
    /// handle that is not on the test stack.
    pub fn set_modalias(&self, modalias: String) -> (r: Result<(), BluetoothError>)
        ensures
            self.backend().answers_scripted(r),
    {
        match self.test_surface() {
            Ok(fake) => forward(mock::adapter_set_modalias(fake, modalias)),
            Err(refusal) => Err(refusal),
        }
    }

    /// The advertising data that the adapter was scripted with. Only the test
    /// stack can tell; every other handle reports that it is not supported.
    pub fn get_ad_datas(&self) -> (r: Result<Vec<String>, BluetoothError>)
        ensures
            self.backend().answers_on_mock_only(r),
    {
        match self {
            Self::Mock(fake) => forward(mock::adapter_get_ad_datas(fake)),
            _ => Err(BluetoothError::NotSupported),
        }
    }

    /// Scripts the advertising data of the adapter. Test surface: refused on
    /// every handle that is not on the test stack.
    pub fn set_ad_datas(&self, ad_datas: Vec<String>) -> (r: Result<(), BluetoothError>)
        ensures
            self.backend().answers_scripted(r),
    {
        match self.test_surface() {
            Ok(fake) => forward(mock::adapter_set_ad_datas(fake, ad_datas)),
            Err(refusal) => Err(refusal),
        }
    }
}

/// What `devices` told of their addresses: `told`, as far as there are
/// devices that can have told it.
pub open spec fn heard(
    devices: Seq<BluetoothDevice>,
    told: Seq<Result<String, BluetoothError>>,
) -> Seq<Result<String, BluetoothError>> {
    if told.len() <= devices.len() {
        told
    } else {
        told.take(devices.len() as int)
    }
}

/// Whether `r` is the outcome of a search for the device with the address
/// `address` among `devices`, of which the first told `told[0]` of its
/// address, the next `told[1]`, and so on.
///
/// The outcome is that of the search over what they told, see `locates`,
/// with the device in the place that was found.
pub open spec fn picks(
    devices: Seq<BluetoothDevice>,
    told: Seq<Result<String, BluetoothError>>,
    address: Seq<char>,
    r: Result<Option<BluetoothDevice>, BluetoothError>,
) -> bool {
    match r {
        Ok(Some(device)) => exists|at: usize|
            #[trigger] locates(
                heard(devices, told),
                address,
                Ok::<Option<usize>, BluetoothError>(Some(at)),
            ) && device == devices[at as int],
        Ok(None) => locates(
            heard(devices, told),
            address,
            Ok::<Option<usize>, BluetoothError>(None),
        ),
        Err(failure) => locates(
            heard(devices, told),
            address,
            Err::<Option<usize>, BluetoothError>(failure),
        ),
    }
}

/// Over devices none of which has the address, a lookup finds no device, and
/// does not fail.
pub proof fn unknown_address_picks_no_device(
    devices: Seq<BluetoothDevice>,
    told: Seq<Result<String, BluetoothError>>,
    address: Seq<char>,
    r: Result<Option<BluetoothDevice>, BluetoothError>,
)
    requires
        told.len() == devices.len(),
        forall|k: int|
            0 <= k < told.len() ==> (#[trigger] told[k]) is Ok && told[k]->Ok_0@ != address,
        picks(devices, told, address, r),
    ensures
        r == Ok::<Option<BluetoothDevice>, BluetoothError>(None),
{
    let place = place_picked(devices, told, address, r);
    absent_address_is_not_found(told, address, place);
}

/// Over devices exactly one of which has the address, a lookup finds that
/// device. The devices after it need not have been asked.
pub proof fn single_owner_is_picked(
    devices: Seq<BluetoothDevice>,
    told: Seq<Result<String, BluetoothError>>,
    address: Seq<char>,
    owner: int,
    r: Result<Option<BluetoothDevice>, BluetoothError>,
)
    requires
        told.len() <= devices.len(),
        0 <= owner < told.len(),
        forall|k: int| 0 <= k < told.len() ==> (#[trigger] told[k]) is Ok,
        forall|k: int|
            0 <= k < told.len() ==> ((#[trigger] told[k])->Ok_0@ == address <==> k == owner),
        picks(devices, told, address, r),
    ensures
        r == Ok::<Option<BluetoothDevice>, BluetoothError>(Some(devices[owner])),
{
    let place = place_picked(devices, told, address, r);
    single_address_is_found(told, address, owner, place);
}

/// The outcome of the search over what was told that stands behind the
/// outcome `r` of a lookup.
proof fn place_picked(
    devices: Seq<BluetoothDevice>,
    told: Seq<Result<String, BluetoothError>>,
    address: Seq<char>,
    r: Result<Option<BluetoothDevice>, BluetoothError>,
) -> (place: Result<Option<usize>, BluetoothError>)
    requires
        picks(devices, told, address, r),
    ensures
        locates(heard(devices, told), address, place),
        r matches Ok(Some(device)) ==> place matches Ok(Some(at)) && device == devices[at as int],
        r matches Ok(None) ==> place == Ok::<Option<usize>, BluetoothError>(None),
        r matches Err(failure) ==> place == Err::<Option<usize>, BluetoothError>(failure),
{
    match r {
        Ok(Some(device)) => {
            let at = choose|at: usize|
                #[trigger] locates(
                    heard(devices, told),
                    address,
                    Ok::<Option<usize>, BluetoothError>(Some(at)),
                ) && device == devices[at as int];
            Ok(Some(at))
        },
        Ok(None) => Ok(None),
        Err(failure) => Err(failure),
    }
}

} // verus!
