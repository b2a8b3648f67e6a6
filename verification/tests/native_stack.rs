//! Handles on a platform stack that the program hands in, and handles
//! without any stack.

use std::collections::HashMap;
use std::sync::atomic::{AtomicUsize, Ordering};
use std::sync::Arc;

use device::native::{
    AdapterBackend, CharacteristicBackend, DescriptorBackend, DeviceBackend, Native,
    NativeAdapter, NativeCharacteristic, NativeDescriptor, NativeDevice, NativeService,
    NativeSession, ServiceBackend, SessionBackend,
};
use device::{
    Backend, BluetoothAdapter, BluetoothDevice, BluetoothError, BluetoothGATTCharacteristic,
    BluetoothGATTDescriptor, BluetoothGATTService, NativeFailure, SessionState,
};

struct RadioSession {
    started: Arc<AtomicUsize>,
    stopped: Arc<AtomicUsize>,
}

impl SessionBackend for RadioSession {
    fn start_discovery(&self) -> Result<(), NativeFailure> {
        self.started.fetch_add(1, Ordering::SeqCst);
        Ok(())
    }

    fn stop_discovery(&self) -> Result<(), NativeFailure> {
        let earlier = self.stopped.fetch_add(1, Ordering::SeqCst);
        if earlier == 0 {
            Ok(())
        } else {
            Err(NativeFailure::Failed("no discovery to stop".to_string()))
        }
    }
}

struct RadioDescriptor {
    id: String,
}

impl DescriptorBackend for RadioDescriptor {
    fn get_id(&self) -> String {
        self.id.clone()
    }

    fn read_value(&self) -> Result<Vec<u8>, NativeFailure> {
        Ok(vec![0xde, 0xad])
    }
}

struct RadioCharacteristic {
    id: String,
}

impl CharacteristicBackend for RadioCharacteristic {
    fn descriptor(&self, id: String) -> NativeDescriptor {
        Native { stack: Arc::new(RadioDescriptor { id }) }
    }

    fn get_id(&self) -> String {
        self.id.clone()
    }

    fn get_gatt_descriptors(&self) -> Result<Vec<String>, NativeFailure> {
        Ok(vec![format!("{}/desc0", self.id)])
    }

    fn write_value(&self, values: Vec<u8>) -> Result<(), NativeFailure> {
        if values.len() > 2 {
            Err(NativeFailure::Failed(format!("{} bytes are too many", values.len())))
        } else {
            Ok(())
        }
    }
}

struct RadioService {
    id: String,
}

impl ServiceBackend for RadioService {
    fn characteristic(&self, id: String) -> NativeCharacteristic {
        Native { stack: Arc::new(RadioCharacteristic { id }) }
    }

    fn get_id(&self) -> String {
        self.id.clone()
    }

    fn is_primary(&self) -> Result<bool, NativeFailure> {
        Ok(true)
    }

    fn get_includes(&self) -> Result<Vec<String>, NativeFailure> {
        Ok(vec![format!("{}/inc0", self.id), format!("{}/inc1", self.id)])
    }

    fn get_gatt_characteristics(&self) -> Result<Vec<String>, NativeFailure> {
        Ok(vec![])
    }
}

struct RadioDevice {
    id: String,
}

impl DeviceBackend for RadioDevice {
    fn service(&self, id: String) -> NativeService {
        Native { stack: Arc::new(RadioService { id }) }
    }

    fn get_id(&self) -> String {
        self.id.clone()
    }

    fn get_address(&self) -> Result<String, NativeFailure> {
        if self.id.ends_with("mute") {
            Err(NativeFailure::Failed(format!("{} tells no address", self.id)))
        } else {
            Ok(format!("addr-of-{}", self.id))
        }
    }

    fn get_rssi(&self) -> Result<i16, NativeFailure> {
        Ok(-71)
    }

    fn get_modalias(&self) -> Result<(String, u32, u32, u32), NativeFailure> {
        Ok(("usb".to_string(), 0x1d6b, 0x0246, 0x0540))
    }

    fn get_manufacturer_data(&self) -> Result<HashMap<u16, Vec<u8>>, NativeFailure> {
        let mut data = HashMap::new();
        data.insert(76, vec![1, 2, 3]);
        Ok(data)
    }

    fn get_gatt_services(&self) -> Result<Vec<String>, NativeFailure> {
        Ok(vec![format!("{}/svc0", self.id), format!("{}/svc1", self.id)])
    }

    fn connect_profile(&self, uuid: String) -> Result<(), NativeFailure> {
        Err(NativeFailure::Failed(format!("no profile {}", uuid)))
    }
}

struct RadioAdapter {
    devices: Vec<String>,
    started: Arc<AtomicUsize>,
    stopped: Arc<AtomicUsize>,
}

impl AdapterBackend for RadioAdapter {
    fn device(&self, id: String) -> NativeDevice {
        Native { stack: Arc::new(RadioDevice { id }) }
    }

    fn create_discovery_session(&self) -> Result<NativeSession, NativeFailure> {
        Ok(Native {
            stack: Arc::new(RadioSession {
                started: self.started.clone(),
                stopped: self.stopped.clone(),
            }),
        })
    }

    fn get_id(&self) -> String {
        "hci0".to_string()
    }

    fn get_device_list(&self) -> Result<Vec<String>, NativeFailure> {
        Ok(self.devices.clone())
    }

    fn get_name(&self) -> Result<String, NativeFailure> {
        Ok("radio".to_string())
    }

    fn get_vendor_id(&self) -> Result<u32, NativeFailure> {
        Ok(0x1d6b)
    }
}

struct DeafAdapter;

impl AdapterBackend for DeafAdapter {
    fn device(&self, id: String) -> NativeDevice {
        Native { stack: Arc::new(RadioDevice { id }) }
    }

    fn create_discovery_session(&self) -> Result<NativeSession, NativeFailure> {
        Err(NativeFailure::Failed("the adapter is switched off".to_string()))
    }
}

fn radio(devices: &[&str]) -> NativeAdapter {
    Native {
        stack: Arc::new(RadioAdapter {
            devices: devices.iter().map(|d| d.to_string()).collect(),
            started: Arc::new(AtomicUsize::new(0)),
            stopped: Arc::new(AtomicUsize::new(0)),
        }),
    }
}

fn radio_device(id: &str) -> NativeDevice {
    Native { stack: Arc::new(RadioDevice { id: id.to_string() }) }
}

fn radio_service(id: &str) -> NativeService {
    Native { stack: Arc::new(RadioService { id: id.to_string() }) }
}

fn radio_characteristic(id: &str) -> NativeCharacteristic {
    Native { stack: Arc::new(RadioCharacteristic { id: id.to_string() }) }
}

fn radio_descriptor(id: &str) -> NativeDescriptor {
    Native { stack: Arc::new(RadioDescriptor { id: id.to_string() }) }
}

#[test]
fn devices_of_a_platform_adapter_are_on_its_stack() {
    let bluez = BluetoothAdapter::Bluez(radio(&["a", "b"]));
    let android = BluetoothAdapter::Android(radio(&["a"]));
    let mac = BluetoothAdapter::Mac(radio(&["a", "b", "c"]));
    assert_eq!(bluez.backend(), Backend::Bluez);
    assert_eq!(android.backend(), Backend::Android);
    assert_eq!(mac.backend(), Backend::Mac);
    let devices = bluez.get_devices().unwrap();
    assert_eq!(devices.len(), 2);
    assert!(devices.iter().all(|d| d.backend() == Backend::Bluez));
    assert_eq!(devices[0].get_id(), "a");
    assert_eq!(devices[1].get_id(), "b");
    let devices = android.get_devices().unwrap();
    assert_eq!(devices.len(), 1);
    assert!(devices.iter().all(|d| d.backend() == Backend::Android));
    let devices = mac.get_devices().unwrap();
    assert_eq!(devices.len(), 3);
    assert!(devices.iter().all(|d| d.backend() == Backend::Mac));
}

#[test]
fn the_whole_graph_of_a_platform_stays_on_its_stack() {
    let adapter = BluetoothAdapter::Android(radio(&["dev"]));
    let device = adapter.get_devices().unwrap().remove(0);
    let services = device.get_gatt_services().unwrap();
    assert_eq!(services.len(), 2);
    assert!(services.iter().all(|s| s.backend() == Backend::Android));
    assert_eq!(services[1].get_id(), "dev/svc1");
    let characteristic =
        BluetoothGATTCharacteristic::create_characteristic(&services[0], "chr".to_string());
    assert_eq!(characteristic.backend(), Backend::Android);
    let descriptors = characteristic.get_gatt_descriptors().unwrap();
    assert_eq!(descriptors.len(), 1);
    assert_eq!(descriptors[0].backend(), Backend::Android);
    assert_eq!(descriptors[0].get_id(), "chr/desc0");
    let descriptor = BluetoothGATTDescriptor::create_descriptor(&characteristic, "d".to_string());
    assert_eq!(descriptor.backend(), Backend::Android);
    let service = BluetoothGATTService::create_service(&device, "s".to_string());
    assert_eq!(service.backend(), Backend::Android);
    let again = BluetoothDevice::create_device(&adapter, "x".to_string());
    assert_eq!(again.backend(), Backend::Android);
    assert_eq!(again.get_id(), "x");
}

#[test]
fn a_platform_service_without_characteristics_lists_none() {
    let service = BluetoothGATTService::Mac(radio_service("svc"));
    let characteristics = service.get_gatt_characteristics().unwrap();
    assert_eq!(characteristics.len(), 0);
    let adapter = BluetoothAdapter::Mac(radio(&[]));
    assert_eq!(adapter.get_devices().unwrap().len(), 0);
    assert!(matches!(adapter.get_device("addr-of-a".to_string()), Ok(None)));
}

#[test]
fn what_a_platform_tells_is_handed_on() {
    let adapter = BluetoothAdapter::Bluez(radio(&[]));
    assert_eq!(adapter.get_id(), "hci0");
    assert_eq!(adapter.get_name(), Ok("radio".to_string()));
    assert_eq!(adapter.get_vendor_id(), Ok(0x1d6b));
    let device = BluetoothDevice::Bluez(radio_device("dev"));
    assert_eq!(device.get_rssi(), Ok(-71));
    assert_eq!(device.get_address(), Ok("addr-of-dev".to_string()));
    assert_eq!(
        device.get_modalias(),
        Ok(("usb".to_string(), 0x1d6b, 0x0246, 0x0540))
    );
    let mut data = HashMap::new();
    data.insert(76_u16, vec![1_u8, 2, 3]);
    assert_eq!(device.get_manufacturer_data(), Ok(data));
    assert_eq!(
        device.connect_profile("110b".to_string()),
        Err(BluetoothError::Native("no profile 110b".to_string()))
    );
    let characteristic = BluetoothGATTCharacteristic::Bluez(radio_characteristic("chr"));
    assert_eq!(characteristic.write_value(vec![1, 2]), Ok(()));
    assert_eq!(
        characteristic.write_value(vec![1, 2, 3]),
        Err(BluetoothError::Native("3 bytes are too many".to_string()))
    );
    let descriptor = BluetoothGATTDescriptor::Bluez(radio_descriptor("dsc"));
    assert_eq!(descriptor.read_value(), Ok(vec![0xde, 0xad]));
}

#[test]
fn what_a_platform_does_not_offer_is_not_supported() {
    let adapter = BluetoothAdapter::Bluez(radio(&[]));
    assert_eq!(adapter.get_address(), Err(BluetoothError::NotSupported));
    assert_eq!(adapter.is_powered(), Err(BluetoothError::NotSupported));
    assert_eq!(adapter.get_modalias(), Err(BluetoothError::NotSupported));
    let device = BluetoothDevice::Mac(radio_device("dev"));
    assert_eq!(device.get_name(), Err(BluetoothError::NotSupported));
    assert_eq!(device.pair(), Err(BluetoothError::NotSupported));
    assert_eq!(device.get_service_data(), Err(BluetoothError::NotSupported));
    let descriptor = BluetoothGATTDescriptor::Android(radio_descriptor("dsc"));
    assert_eq!(descriptor.get_uuid(), Err(BluetoothError::NotSupported));
    assert_eq!(descriptor.write_value(vec![]), Err(BluetoothError::NotSupported));
}

#[test]
fn only_the_test_stack_tells_presence_and_advertising_data() {
    for adapter in [
        BluetoothAdapter::Bluez(radio(&[])),
        BluetoothAdapter::Android(radio(&[])),
        BluetoothAdapter::Mac(radio(&[])),
        BluetoothAdapter::Empty,
    ] {
        assert_eq!(adapter.is_present(), Err(BluetoothError::NotSupported));
        assert_eq!(adapter.get_ad_datas(), Err(BluetoothError::NotSupported));
    }
}

#[test]
fn get_device_on_a_platform_takes_the_first_match() {
    let adapter = BluetoothAdapter::Bluez(radio(&["a", "b", "c", "b"]));
    let found = adapter.get_device("addr-of-b".to_string()).unwrap().unwrap();
    assert_eq!(found.get_id(), "b");
    assert_eq!(found.backend(), Backend::Bluez);
    let found = adapter.get_device("addr-of-a".to_string()).unwrap().unwrap();
    assert_eq!(found.get_id(), "a");
    assert!(matches!(adapter.get_device("addr-of-z".to_string()), Ok(None)));
}

#[test]
fn get_device_fails_with_the_first_device_that_tells_no_address() {
    let adapter = BluetoothAdapter::Bluez(radio(&["a", "x-mute", "b", "y-mute"]));
    let failure = adapter.get_device("addr-of-b".to_string()).err().unwrap();
    assert_eq!(failure, BluetoothError::Native("x-mute tells no address".to_string()));
    let failure = adapter.get_device("addr-of-z".to_string()).err().unwrap();
    assert_eq!(failure, BluetoothError::Native("x-mute tells no address".to_string()));
    let found = adapter.get_device("addr-of-a".to_string()).unwrap().unwrap();
    assert_eq!(found.get_id(), "a");
}

#[test]
fn test_setters_are_refused_on_platform_adapters() {
    for adapter in [
        BluetoothAdapter::Bluez(radio(&[])),
        BluetoothAdapter::Android(radio(&[])),
        BluetoothAdapter::Mac(radio(&[])),
        BluetoothAdapter::Empty,
    ] {
        let refused = Err(BluetoothError::NotSupportedOnReal);
        assert_eq!(adapter.set_id("x".to_string()), refused);
        assert_eq!(adapter.set_address("x".to_string()), refused);
        assert_eq!(adapter.set_name("x".to_string()), refused);
        assert_eq!(adapter.set_alias("x".to_string()), refused);
        assert_eq!(adapter.set_class(1), refused);
        assert_eq!(adapter.set_powered(true), refused);
        assert_eq!(adapter.set_present(true), refused);
        assert_eq!(adapter.set_discoverable(true), refused);
        assert_eq!(adapter.set_pairable(true), refused);
        assert_eq!(adapter.set_pairable_timeout(1), refused);
        assert_eq!(adapter.set_discoverable_timeout(1), refused);
        assert_eq!(adapter.set_discovering(true), refused);
        assert_eq!(adapter.set_can_start_discovery(false), refused);
        assert_eq!(adapter.set_can_stop_discovery(false), refused);
        assert_eq!(adapter.set_uuids(vec![]), refused);
        assert_eq!(adapter.set_modalias("usb:v1D6Bp0246d0540".to_string()), refused);
        assert_eq!(adapter.set_ad_datas(vec![]), refused);
    }
    let adapter = BluetoothAdapter::Bluez(radio(&[]));
    assert_eq!(adapter.set_name("x".to_string()), Err(BluetoothError::NotSupportedOnReal));
    assert_eq!(adapter.get_name(), Ok("radio".to_string()));
    assert_eq!(adapter.get_id(), "hci0");
}

#[test]
fn test_setters_are_refused_on_platform_devices() {
    for device in [
        BluetoothDevice::Bluez(radio_device("dev")),
        BluetoothDevice::Android(radio_device("dev")),
        BluetoothDevice::Mac(radio_device("dev")),
        BluetoothDevice::Empty,
    ] {
        let refused = Err(BluetoothError::NotSupportedOnReal);
        assert_eq!(device.set_id("x".to_string()), refused);
        assert_eq!(device.set_address("x".to_string()), refused);
        assert_eq!(device.set_name(None), refused);
        assert_eq!(device.set_icon("x".to_string()), refused);
        assert_eq!(device.set_class(1), refused);
        assert_eq!(device.set_appearance(1), refused);
        assert_eq!(device.set_uuids(vec![]), refused);
        assert_eq!(device.set_paired(true), refused);
        assert_eq!(device.set_connected(true), refused);
        assert_eq!(device.is_connectable(), Err(BluetoothError::NotSupportedOnReal));
        assert_eq!(device.set_connectable(true), refused);
        assert_eq!(device.set_trusted(true), refused);
        assert_eq!(device.set_blocked(true), refused);
        assert_eq!(device.set_alias("x".to_string()), refused);
        assert_eq!(device.set_legacy_pairing(true), refused);
        assert_eq!(device.set_modalias("x".to_string()), refused);
        assert_eq!(device.set_rssi(-42), refused);
        assert_eq!(device.set_tx_power(4), refused);
        assert_eq!(device.set_manufacturer_data(HashMap::new()), refused);
        assert_eq!(device.set_service_data(HashMap::new()), refused);
    }
    let device = BluetoothDevice::Bluez(radio_device("dev"));
    assert_eq!(device.set_rssi(-42), Err(BluetoothError::NotSupportedOnReal));
    assert_eq!(device.get_rssi(), Ok(-71));
    assert_eq!(device.set_id("x".to_string()), Err(BluetoothError::NotSupportedOnReal));
    assert_eq!(device.get_id(), "dev");
}

#[test]
fn test_setters_are_refused_on_platform_gatt_objects() {
    let refused = Err(BluetoothError::NotSupportedOnReal);
    for service in [
        BluetoothGATTService::Bluez(radio_service("s")),
        BluetoothGATTService::Android(radio_service("s")),
        BluetoothGATTService::Mac(radio_service("s")),
        BluetoothGATTService::Empty,
    ] {
        assert_eq!(service.set_id("x".to_string()), refused);
        assert_eq!(service.set_uuid("x".to_string()), refused);
        assert_eq!(service.set_primary(false), refused);
    }
    for characteristic in [
        BluetoothGATTCharacteristic::Bluez(radio_characteristic("c")),
        BluetoothGATTCharacteristic::Android(radio_characteristic("c")),
        BluetoothGATTCharacteristic::Mac(radio_characteristic("c")),
        BluetoothGATTCharacteristic::Empty,
    ] {
        assert_eq!(characteristic.set_id("x".to_string()), refused);
        assert_eq!(characteristic.set_uuid("x".to_string()), refused);
        assert_eq!(characteristic.set_value(vec![1, 2]), refused);
        assert_eq!(characteristic.set_notifying(true), refused);
        assert_eq!(characteristic.set_flags(vec![]), refused);
    }
    for descriptor in [
        BluetoothGATTDescriptor::Bluez(radio_descriptor("d")),
        BluetoothGATTDescriptor::Android(radio_descriptor("d")),
        BluetoothGATTDescriptor::Mac(radio_descriptor("d")),
        BluetoothGATTDescriptor::Empty,
    ] {
        assert_eq!(descriptor.set_id("x".to_string()), refused);
        assert_eq!(descriptor.set_uuid("x".to_string()), refused);
        assert_eq!(descriptor.set_value(vec![1, 2]), refused);
        assert_eq!(descriptor.set_flags(vec![]), refused);
    }
    let service = BluetoothGATTService::Mac(radio_service("s"));
    assert_eq!(service.set_primary(false), Err(BluetoothError::NotSupportedOnReal));
    assert_eq!(service.is_primary(), Ok(true));
}

#[test]
fn the_refusal_of_the_test_surface_has_its_own_text() {
    let device = BluetoothDevice::Bluez(radio_device("dev"));
    let failure = device.set_rssi(-42).err().unwrap();
    assert_eq!(failure.message(), "Error! Test functions are not supported on real devices!");
    assert_eq!(device.test_surface().err(), Some(BluetoothError::NotSupportedOnReal));
    assert_eq!(BluetoothAdapter::Empty.test_surface().err(), Some(BluetoothError::NotSupportedOnReal));
}

#[test]
fn no_mock_object_is_built_under_a_platform_parent() {
    for adapter in [
        BluetoothAdapter::Bluez(radio(&[])),
        BluetoothAdapter::Android(radio(&[])),
        BluetoothAdapter::Mac(radio(&[])),
        BluetoothAdapter::Empty,
    ] {
        assert!(matches!(
            adapter.create_mock_device("dev1".to_string()),
            Err(BluetoothError::NotAMock)
        ));
        assert_eq!(adapter.mock_parent().err(), Some(BluetoothError::NotAMock));
        assert!(matches!(
            BluetoothDevice::create_mock_device(adapter, "dev1".to_string()),
            Err(BluetoothError::NotAMock)
        ));
    }
    for device in [
        BluetoothDevice::Bluez(radio_device("dev")),
        BluetoothDevice::Android(radio_device("dev")),
        BluetoothDevice::Mac(radio_device("dev")),
        BluetoothDevice::Empty,
    ] {
        assert!(matches!(
            BluetoothGATTService::create_mock_service(device, "svc1".to_string()),
            Err(BluetoothError::NotAMock)
        ));
    }
    for service in [
        BluetoothGATTService::Bluez(radio_service("s")),
        BluetoothGATTService::Android(radio_service("s")),
        BluetoothGATTService::Mac(radio_service("s")),
        BluetoothGATTService::Empty,
    ] {
        assert!(matches!(
            BluetoothGATTCharacteristic::create_mock_characteristic(service, "c1".to_string()),
            Err(BluetoothError::NotAMock)
        ));
    }
    for characteristic in [
        BluetoothGATTCharacteristic::Bluez(radio_characteristic("c")),
        BluetoothGATTCharacteristic::Android(radio_characteristic("c")),
        BluetoothGATTCharacteristic::Mac(radio_characteristic("c")),
        BluetoothGATTCharacteristic::Empty,
    ] {
        assert!(matches!(
            BluetoothGATTDescriptor::create_mock_descriptor(characteristic, "d1".to_string()),
            Err(BluetoothError::NotAMock)
        ));
    }
}

#[test]
fn the_refusal_of_a_parent_has_its_own_text() {
    let adapter = BluetoothAdapter::Bluez(radio(&["a"]));
    let failure = adapter.create_mock_device("dev1".to_string()).err().unwrap();
    assert_eq!(failure.message(), "Error! The first parameter must be a mock structure!");
    assert_eq!(adapter.get_devices().unwrap().len(), 1);
}

#[test]
fn included_services_need_a_device_on_the_same_stack() {
    let service = BluetoothGATTService::Bluez(radio_service("svc"));
    let device = BluetoothDevice::Bluez(radio_device("dev"));
    let included = service.get_includes(device).unwrap();
    assert_eq!(included.len(), 2);
    assert!(included.iter().all(|s| s.backend() == Backend::Bluez));
    assert_eq!(included[0].get_id(), "svc/inc0");
    for stranger in [
        BluetoothDevice::Android(radio_device("dev")),
        BluetoothDevice::Mac(radio_device("dev")),
        BluetoothDevice::Empty,
        BluetoothDevice::create_mock_device(
            BluetoothAdapter::new_mock().unwrap(),
            "dev".to_string(),
        )
        .unwrap(),
    ] {
        assert!(matches!(service.get_includes(stranger), Err(BluetoothError::BackendMismatch)));
    }
}

#[test]
fn a_platform_session_is_started_and_stopped() {
    let started = Arc::new(AtomicUsize::new(0));
    let stopped = Arc::new(AtomicUsize::new(0));
    let adapter = BluetoothAdapter::Bluez(Native {
        stack: Arc::new(RadioAdapter {
            devices: vec![],
            started: started.clone(),
            stopped: stopped.clone(),
        }),
    });
    let mut session = adapter.create_discovery_session().unwrap();
    assert_eq!(session.backend(), Backend::Bluez);
    assert_eq!(session.state(), SessionState::Inactive);
    assert_eq!(session.start_discovery(), Ok(()));
    assert_eq!(session.state(), SessionState::Active);
    assert_eq!(session.start_discovery(), Ok(()));
    assert_eq!(session.state(), SessionState::Active);
    assert_eq!(started.load(Ordering::SeqCst), 2);
    assert_eq!(session.stop_discovery(), Ok(()));
    assert_eq!(session.state(), SessionState::Inactive);
    assert_eq!(
        session.stop_discovery(),
        Err(BluetoothError::Native("no discovery to stop".to_string()))
    );
    assert_eq!(session.state(), SessionState::Inactive);
    assert_eq!(stopped.load(Ordering::SeqCst), 2);
}

#[test]
fn a_platform_may_refuse_a_session() {
    let adapter = BluetoothAdapter::Mac(Native { stack: Arc::new(DeafAdapter) });
    let failure = adapter.create_discovery_session().err().unwrap();
    assert_eq!(failure, BluetoothError::Native("the adapter is switched off".to_string()));
    assert_eq!(adapter.get_id(), "");
    assert_eq!(adapter.get_devices().err(), Some(BluetoothError::NotSupported));
}

#[test]
fn nothing_is_supported_without_a_stack() {
    let adapter = BluetoothAdapter::new().unwrap();
    assert_eq!(adapter.backend(), Backend::Empty);
    assert_eq!(adapter.get_id(), "");
    assert_eq!(adapter.get_address(), Err(BluetoothError::NotSupported));
    assert_eq!(adapter.get_name(), Err(BluetoothError::NotSupported));
    assert_eq!(adapter.get_alias(), Err(BluetoothError::NotSupported));
    assert_eq!(adapter.get_class(), Err(BluetoothError::NotSupported));
    assert_eq!(adapter.is_powered(), Err(BluetoothError::NotSupported));
    assert_eq!(adapter.is_discoverable(), Err(BluetoothError::NotSupported));
    assert_eq!(adapter.is_pairable(), Err(BluetoothError::NotSupported));
    assert_eq!(adapter.get_pairable_timeout(), Err(BluetoothError::NotSupported));
    assert_eq!(adapter.get_discoverable_timeout(), Err(BluetoothError::NotSupported));
    assert_eq!(adapter.is_discovering(), Err(BluetoothError::NotSupported));
    assert_eq!(adapter.get_uuids(), Err(BluetoothError::NotSupported));
    assert_eq!(adapter.get_vendor_id_source(), Err(BluetoothError::NotSupported));
    assert_eq!(adapter.get_vendor_id(), Err(BluetoothError::NotSupported));
    assert_eq!(adapter.get_product_id(), Err(BluetoothError::NotSupported));
    assert_eq!(adapter.get_device_id(), Err(BluetoothError::NotSupported));
    assert_eq!(adapter.get_modalias(), Err(BluetoothError::NotSupported));
    assert_eq!(adapter.get_devices().err(), Some(BluetoothError::NotSupported));
    assert_eq!(
        adapter.get_device("00:00:00:00:00:01".to_string()).err(),
        Some(BluetoothError::NotSupported)
    );
    let failure = adapter.get_name().err().unwrap();
    assert_eq!(failure.message(), "Error! Not supported platform!");
}

#[test]
fn a_session_without_a_stack_never_starts() {
    let adapter = BluetoothAdapter::new().unwrap();
    let mut session = adapter.create_discovery_session().unwrap();
    assert_eq!(session.backend(), Backend::Empty);
    assert_eq!(session.start_discovery(), Err(BluetoothError::NotSupported));
    assert_eq!(session.state(), SessionState::Inactive);
    assert_eq!(session.stop_discovery(), Err(BluetoothError::NotSupported));
    assert_eq!(session.state(), SessionState::Inactive);
}

#[test]
fn objects_without_a_stack_support_nothing() {
    let device = BluetoothDevice::Empty;
    assert_eq!(device.get_id(), "");
    assert_eq!(device.get_address(), Err(BluetoothError::NotSupported));
    assert_eq!(device.get_rssi(), Err(BluetoothError::NotSupported));
    assert_eq!(device.get_modalias(), Err(BluetoothError::NotSupported));
    assert_eq!(device.connect(), Err(BluetoothError::NotSupported));
    assert_eq!(device.connect_profile("x".to_string()), Err(BluetoothError::NotSupported));
    assert_eq!(device.get_gatt_services().err(), Some(BluetoothError::NotSupported));
    let service = BluetoothGATTService::create_service(&device, "svc".to_string());
    assert_eq!(service.backend(), Backend::Empty);
    assert_eq!(service.get_uuid(), Err(BluetoothError::NotSupported));
    assert_eq!(service.get_includes(device).err(), Some(BluetoothError::NotSupported));
    let characteristic =
        BluetoothGATTCharacteristic::create_characteristic(&service, "chr".to_string());
    assert_eq!(characteristic.backend(), Backend::Empty);
    assert_eq!(characteristic.read_value(), Err(BluetoothError::NotSupported));
    assert_eq!(characteristic.start_notify(), Err(BluetoothError::NotSupported));
    let descriptor =
        BluetoothGATTDescriptor::create_descriptor(&characteristic, "dsc".to_string());
    assert_eq!(descriptor.backend(), Backend::Empty);
    assert_eq!(descriptor.get_id(), "");
    assert_eq!(descriptor.get_value(), Err(BluetoothError::NotSupported));
}

#[test]
fn addresses_are_asked_no_further_than_needed() {
    let adapter = BluetoothAdapter::Bluez(radio(&["a", "b", "c-mute", "d"]));
    let devices = adapter.get_devices().unwrap();
    let told = BluetoothAdapter::ask_addresses(&devices, &"addr-of-b".to_string());
    assert_eq!(told, vec![Ok("addr-of-a".to_string()), Ok("addr-of-b".to_string())]);
    let told = BluetoothAdapter::ask_addresses(&devices, &"addr-of-a".to_string());
    assert_eq!(told, vec![Ok("addr-of-a".to_string())]);
    let told = BluetoothAdapter::ask_addresses(&devices, &"addr-of-d".to_string());
    assert_eq!(told.len(), 3);
    assert_eq!(told[2], Err(BluetoothError::Native("c-mute tells no address".to_string())));
    let told = BluetoothAdapter::ask_addresses(&vec![], &"addr-of-a".to_string());
    assert_eq!(told.len(), 0);
    let heard = BluetoothAdapter::Android(radio(&["a", "b"])).get_devices().unwrap();
    let told = BluetoothAdapter::ask_addresses(&heard, &"addr-of-z".to_string());
    assert_eq!(told, vec![Ok("addr-of-a".to_string()), Ok("addr-of-b".to_string())]);
}

#[test]
fn a_listing_becomes_handles_and_a_failure_stays_a_failure() {
    let adapter = BluetoothAdapter::Mac(radio(&[]));
    let none = BluetoothDevice::from_listing(&adapter, Ok(vec![])).unwrap();
    assert_eq!(none.len(), 0);
    let two = BluetoothDevice::from_listing(&adapter, Ok(vec!["a".to_string(), "b".to_string()]))
        .unwrap();
    assert_eq!(two.len(), 2);
    assert!(two.iter().all(|d| d.backend() == Backend::Mac));
    assert_eq!(two[1].get_id(), "b");
    let failure = BluetoothError::Native("the bus is down".to_string());
    assert_eq!(BluetoothDevice::from_listing(&adapter, Err(failure.clone())).err(), Some(failure));
    let device = BluetoothDevice::Empty;
    assert_eq!(BluetoothGATTService::from_listing(&device, Ok(vec![])).unwrap().len(), 0);
    assert_eq!(
        BluetoothGATTService::from_listing(&device, Err(BluetoothError::NotSupported)).err(),
        Some(BluetoothError::NotSupported)
    );
    let service = BluetoothGATTService::Empty;
    let characteristics =
        BluetoothGATTCharacteristic::from_listing(&service, Ok(vec!["c".to_string()])).unwrap();
    assert_eq!(characteristics.len(), 1);
    assert_eq!(characteristics[0].backend(), Backend::Empty);
    let descriptors =
        BluetoothGATTDescriptor::from_listing(&characteristics[0], Ok(vec![])).unwrap();
    assert_eq!(descriptors.len(), 0);
}

#[test]
fn a_platform_fails_as_unsupported_or_with_its_own_cause() {
    let device = BluetoothDevice::Bluez(radio_device("x-mute"));
    assert_eq!(
        device.get_address(),
        Err(BluetoothError::Native("x-mute tells no address".to_string()))
    );
    assert_eq!(device.get_icon(), Err(BluetoothError::NotSupported));
    assert_eq!(NativeFailure::NotSupported, NativeFailure::NotSupported);
    assert_ne!(NativeFailure::Failed(String::new()), NativeFailure::NotSupported);
}

fn three_devices() -> Vec<BluetoothDevice> {
    BluetoothAdapter::Bluez(radio(&["a", "b", "c"])).get_devices().unwrap()
}

fn addresses(all: &[&str]) -> Vec<Result<String, BluetoothError>> {
    all.iter().map(|a| Ok(a.to_string())).collect()
}

#[test]
fn pick_device_takes_the_device_in_the_place_that_was_found() {
    let told = addresses(&["1", "2", "3"]);
    let found = BluetoothAdapter::pick_device(three_devices(), told.clone(), &"1".to_string());
    assert_eq!(found.unwrap().unwrap().get_id(), "a");
    let found = BluetoothAdapter::pick_device(three_devices(), told.clone(), &"2".to_string());
    assert_eq!(found.unwrap().unwrap().get_id(), "b");
    let found = BluetoothAdapter::pick_device(three_devices(), told.clone(), &"3".to_string());
    assert_eq!(found.unwrap().unwrap().get_id(), "c");
    let found = BluetoothAdapter::pick_device(three_devices(), told, &"4".to_string());
    assert!(matches!(found, Ok(None)));
    let found = BluetoothAdapter::pick_device(vec![], vec![], &"1".to_string());
    assert!(matches!(found, Ok(None)));
}

#[test]
fn pick_device_takes_the_first_of_two_devices_with_the_address() {
    let told = addresses(&["1", "2", "2"]);
    let found = BluetoothAdapter::pick_device(three_devices(), told, &"2".to_string());
    assert_eq!(found.unwrap().unwrap().get_id(), "b");
}

#[test]
fn pick_device_fails_with_a_failure_before_the_address() {
    let mut told = addresses(&["1"]);
    told.push(Err(BluetoothError::Native("out of range".to_string())));
    told.push(Ok("3".to_string()));
    let found = BluetoothAdapter::pick_device(three_devices(), told.clone(), &"3".to_string());
    assert_eq!(found.err(), Some(BluetoothError::Native("out of range".to_string())));
    let found = BluetoothAdapter::pick_device(three_devices(), told, &"1".to_string());
    assert_eq!(found.unwrap().unwrap().get_id(), "a");
}

#[test]
fn pick_device_hears_no_more_than_the_devices_can_have_told() {
    let told = addresses(&["1", "2", "3", "4"]);
    let found = BluetoothAdapter::pick_device(three_devices(), told, &"4".to_string());
    assert!(matches!(found, Ok(None)));
    let mut told = addresses(&["1", "2", "3"]);
    told.push(Err(BluetoothError::NotSupported));
    let found = BluetoothAdapter::pick_device(three_devices(), told, &"9".to_string());
    assert!(matches!(found, Ok(None)));
    let told = addresses(&["1"]);
    let found = BluetoothAdapter::pick_device(three_devices(), told.clone(), &"2".to_string());
    assert!(matches!(found, Ok(None)));
    let found = BluetoothAdapter::pick_device(three_devices(), told, &"1".to_string());
    assert_eq!(found.unwrap().unwrap().get_id(), "a");
}
