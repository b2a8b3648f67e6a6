//! The object graph on the in-memory test stack.

use std::collections::HashMap;

use device::{
    Backend, BluetoothAdapter, BluetoothDevice, BluetoothError, BluetoothGATTCharacteristic,
    BluetoothGATTDescriptor, BluetoothGATTService, SessionState,
};

fn mock_adapter() -> BluetoothAdapter {
    BluetoothAdapter::new_mock().unwrap()
}

fn mock_device(adapter: &BluetoothAdapter, id: &str) -> BluetoothDevice {
    BluetoothDevice::create_mock_device(adapter.clone(), id.to_string()).unwrap()
}

fn mock_service(device: &BluetoothDevice, id: &str) -> BluetoothGATTService {
    BluetoothGATTService::create_mock_service(device.clone(), id.to_string()).unwrap()
}

fn mock_characteristic(service: &BluetoothGATTService, id: &str) -> BluetoothGATTCharacteristic {
    BluetoothGATTCharacteristic::create_mock_characteristic(service.clone(), id.to_string())
        .unwrap()
}

fn mock_descriptor(
    characteristic: &BluetoothGATTCharacteristic,
    id: &str,
) -> BluetoothGATTDescriptor {
    BluetoothGATTDescriptor::create_mock_descriptor(characteristic.clone(), id.to_string())
        .unwrap()
}

#[test]
fn whole_chain_and_characteristic_value() {
    let adapter = mock_adapter();
    let device = mock_device(&adapter, "dev1");
    let service = mock_service(&device, "svc1");
    let characteristic = mock_characteristic(&service, "c1");
    let descriptor = mock_descriptor(&characteristic, "d1");

    assert_eq!(device.get_id(), "dev1");
    assert_eq!(service.get_id(), "svc1");
    assert_eq!(characteristic.get_id(), "c1");
    assert_eq!(descriptor.get_id(), "d1");

    assert_eq!(characteristic.set_value(vec![0x01, 0x02]), Ok(()));
    assert_eq!(characteristic.get_value(), Ok(vec![0x01, 0x02]));
    assert_eq!(characteristic.read_value(), Ok(vec![0x01, 0x02]));
}

#[test]
fn every_handle_of_the_chain_is_on_the_test_stack() {
    let adapter = mock_adapter();
    let device = mock_device(&adapter, "dev1");
    let service = mock_service(&device, "svc1");
    let characteristic = mock_characteristic(&service, "c1");
    let descriptor = mock_descriptor(&characteristic, "d1");
    assert_eq!(adapter.backend(), Backend::Mock);
    assert_eq!(device.backend(), Backend::Mock);
    assert_eq!(service.backend(), Backend::Mock);
    assert_eq!(characteristic.backend(), Backend::Mock);
    assert_eq!(descriptor.backend(), Backend::Mock);
    assert_eq!(device.clone().backend(), Backend::Mock);
}

#[test]
fn enumerated_handles_are_on_the_test_stack() {
    let adapter = mock_adapter();
    let device = mock_device(&adapter, "dev1");
    mock_device(&adapter, "dev2");
    device.set_connected(true).unwrap();
    let service = mock_service(&device, "svc1");
    let characteristic = mock_characteristic(&service, "c1");
    mock_descriptor(&characteristic, "d1");
    mock_descriptor(&characteristic, "d2");

    let devices = adapter.get_devices().unwrap();
    assert_eq!(devices.len(), 2);
    assert!(devices.iter().all(|d| d.backend() == Backend::Mock));
    assert_eq!(devices[0].get_id(), "dev1");
    assert_eq!(devices[1].get_id(), "dev2");

    let services = device.get_gatt_services().unwrap();
    assert_eq!(services.len(), 1);
    assert_eq!(services[0].backend(), Backend::Mock);
    assert_eq!(services[0].get_id(), "svc1");

    let characteristics = service.get_gatt_characteristics().unwrap();
    assert_eq!(characteristics.len(), 1);
    assert_eq!(characteristics[0].backend(), Backend::Mock);
    assert_eq!(characteristics[0].get_id(), "c1");

    let descriptors = characteristic.get_gatt_descriptors().unwrap();
    assert_eq!(descriptors.len(), 2);
    assert!(descriptors.iter().all(|d| d.backend() == Backend::Mock));
    assert_eq!(descriptors[1].get_id(), "d2");
}

#[test]
fn enumerated_handles_share_the_native_object() {
    let adapter = mock_adapter();
    let device = mock_device(&adapter, "dev1");
    device.set_name(Some("thermometer".to_string())).unwrap();
    let listed = adapter.get_devices().unwrap();
    assert_eq!(listed[0].get_name(), Ok("thermometer".to_string()));
    listed[0].set_alias("kitchen".to_string()).unwrap();
    assert_eq!(device.get_alias(), Ok("kitchen".to_string()));
}

#[test]
fn empty_child_sets_are_empty_lists() {
    let adapter = mock_adapter();
    assert_eq!(adapter.get_devices().unwrap().len(), 0);
    let device = mock_device(&adapter, "dev1");
    device.set_connected(true).unwrap();
    assert_eq!(device.get_gatt_services().unwrap().len(), 0);
    let service = mock_service(&device, "svc1");
    assert_eq!(service.get_gatt_characteristics().unwrap().len(), 0);
    assert_eq!(service.get_includes(device.clone()).unwrap().len(), 0);
    let characteristic = mock_characteristic(&service, "c1");
    assert_eq!(characteristic.get_gatt_descriptors().unwrap().len(), 0);
}

#[test]
fn builders_give_no_handle_for_no_identifier() {
    let adapter = mock_adapter();
    let device = mock_device(&adapter, "dev1");
    let service = mock_service(&device, "svc1");
    let characteristic = mock_characteristic(&service, "c1");
    assert_eq!(BluetoothDevice::create_devices(&adapter, vec![]).len(), 0);
    assert_eq!(BluetoothGATTService::create_services(&device, vec![]).len(), 0);
    assert_eq!(BluetoothGATTCharacteristic::create_characteristics(&service, vec![]).len(), 0);
    assert_eq!(BluetoothGATTDescriptor::create_descriptors(&characteristic, vec![]).len(), 0);
}

#[test]
fn builders_keep_the_order_of_the_identifiers() {
    let adapter = mock_adapter();
    let ids = vec!["b".to_string(), "a".to_string(), "c".to_string()];
    let devices = BluetoothDevice::create_devices(&adapter, ids);
    assert_eq!(devices.len(), 3);
    assert_eq!(devices[0].get_id(), "b");
    assert_eq!(devices[1].get_id(), "a");
    assert_eq!(devices[2].get_id(), "c");
    let single = BluetoothDevice::create_device(&adapter, "a".to_string());
    assert_eq!(single.get_id(), "a");
    assert_eq!(adapter.get_devices().unwrap().len(), 3);
}

#[test]
fn listing_the_services_of_a_device_that_is_not_connected_fails() {
    let adapter = mock_adapter();
    let device = mock_device(&adapter, "dev1");
    mock_service(&device, "svc1");
    let failure = device.get_gatt_services().err().unwrap();
    assert_eq!(failure, BluetoothError::Native("Device not connected.".to_string()));
    assert_eq!(failure.message(), "Device not connected.");
}

#[test]
fn get_device_finds_no_device_with_an_unknown_address() {
    let adapter = mock_adapter();
    assert!(matches!(adapter.get_device("00:00:00:00:00:01".to_string()), Ok(None)));
    let first = mock_device(&adapter, "dev1");
    let second = mock_device(&adapter, "dev2");
    first.set_address("00:00:00:00:00:02".to_string()).unwrap();
    second.set_address("00:00:00:00:00:03".to_string()).unwrap();
    assert!(matches!(adapter.get_device("00:00:00:00:00:01".to_string()), Ok(None)));
}

#[test]
fn get_device_finds_the_one_device_with_the_address() {
    let adapter = mock_adapter();
    let first = mock_device(&adapter, "dev1");
    let second = mock_device(&adapter, "dev2");
    let third = mock_device(&adapter, "dev3");
    first.set_address("00:00:00:00:00:01".to_string()).unwrap();
    second.set_address("00:00:00:00:00:02".to_string()).unwrap();
    third.set_address("00:00:00:00:00:03".to_string()).unwrap();
    let found = adapter.get_device("00:00:00:00:00:02".to_string()).unwrap().unwrap();
    assert_eq!(found.get_id(), "dev2");
    assert_eq!(found.backend(), Backend::Mock);
    let found = adapter.get_device("00:00:00:00:00:03".to_string()).unwrap().unwrap();
    assert_eq!(found.get_id(), "dev3");
}

#[test]
fn get_device_finds_the_first_of_two_devices_with_the_address() {
    let adapter = mock_adapter();
    let first = mock_device(&adapter, "dev1");
    let second = mock_device(&adapter, "dev2");
    first.set_address("00:00:00:00:00:09".to_string()).unwrap();
    second.set_address("00:00:00:00:00:09".to_string()).unwrap();
    let found = adapter.get_device("00:00:00:00:00:09".to_string()).unwrap().unwrap();
    assert_eq!(found.get_id(), "dev1");
}

#[test]
fn adapter_builds_mock_devices_itself() {
    let adapter = mock_adapter();
    let device = adapter.create_mock_device("dev1".to_string()).unwrap();
    assert_eq!(device.backend(), Backend::Mock);
    assert_eq!(device.get_id(), "dev1");
    assert_eq!(adapter.get_devices().unwrap().len(), 1);
}

#[test]
fn session_starts_and_stops() {
    let adapter = mock_adapter();
    let mut session = adapter.create_discovery_session().unwrap();
    assert_eq!(session.backend(), Backend::Mock);
    assert_eq!(session.state(), SessionState::Inactive);
    assert!(!session.is_active());
    assert_eq!(session.start_discovery(), Ok(()));
    assert_eq!(session.state(), SessionState::Active);
    assert!(session.is_active());
    assert_eq!(session.stop_discovery(), Ok(()));
    assert_eq!(session.state(), SessionState::Inactive);
}

#[test]
fn stopping_an_inactive_session_is_passed_on() {
    let adapter = mock_adapter();
    let mut session = adapter.create_discovery_session().unwrap();
    assert_eq!(session.stop_discovery(), Ok(()));
    assert_eq!(session.state(), SessionState::Inactive);
    adapter.set_can_stop_discovery(false).unwrap();
    assert_eq!(
        session.stop_discovery(),
        Err(BluetoothError::Native("Failed to stop discovery session".to_string()))
    );
    assert_eq!(session.state(), SessionState::Inactive);
}

#[test]
fn a_failed_command_leaves_the_state_of_the_session() {
    let adapter = mock_adapter();
    let mut session = adapter.create_discovery_session().unwrap();
    adapter.set_can_start_discovery(false).unwrap();
    assert_eq!(
        session.start_discovery(),
        Err(BluetoothError::Native("Failed to start discovery session".to_string()))
    );
    assert_eq!(session.state(), SessionState::Inactive);
    adapter.set_can_start_discovery(true).unwrap();
    assert_eq!(session.start_discovery(), Ok(()));
    assert_eq!(session.start_discovery(), Ok(()));
    assert_eq!(session.state(), SessionState::Active);
    adapter.set_can_stop_discovery(false).unwrap();
    assert!(session.stop_discovery().is_err());
    assert_eq!(session.state(), SessionState::Active);
}

#[test]
fn adapter_setters_are_read_back() {
    let adapter = mock_adapter();
    assert_eq!(adapter.set_id("hci0".to_string()), Ok(()));
    assert_eq!(adapter.get_id(), "hci0");
    assert_eq!(adapter.set_address("AA:BB:CC:DD:EE:FF".to_string()), Ok(()));
    assert_eq!(adapter.get_address(), Ok("AA:BB:CC:DD:EE:FF".to_string()));
    assert_eq!(adapter.set_name("laptop".to_string()), Ok(()));
    assert_eq!(adapter.get_name(), Ok("laptop".to_string()));
    assert_eq!(adapter.set_alias("desk".to_string()), Ok(()));
    assert_eq!(adapter.get_alias(), Ok("desk".to_string()));
    assert_eq!(adapter.set_class(0x1c010c), Ok(()));
    assert_eq!(adapter.get_class(), Ok(0x1c010c));
    assert_eq!(adapter.set_powered(true), Ok(()));
    assert_eq!(adapter.is_powered(), Ok(true));
    assert_eq!(adapter.set_present(false), Ok(()));
    assert_eq!(adapter.is_present(), Ok(false));
    assert_eq!(adapter.set_discoverable(true), Ok(()));
    assert_eq!(adapter.is_discoverable(), Ok(true));
    assert_eq!(adapter.set_pairable(true), Ok(()));
    assert_eq!(adapter.is_pairable(), Ok(true));
    assert_eq!(adapter.set_pairable_timeout(30), Ok(()));
    assert_eq!(adapter.get_pairable_timeout(), Ok(30));
    assert_eq!(adapter.set_discoverable_timeout(180), Ok(()));
    assert_eq!(adapter.get_discoverable_timeout(), Ok(180));
    assert_eq!(adapter.set_discovering(true), Ok(()));
    assert_eq!(adapter.is_discovering(), Ok(true));
    let uuids = vec!["0000180f-0000-1000-8000-00805f9b34fb".to_string()];
    assert_eq!(adapter.set_uuids(uuids.clone()), Ok(()));
    assert_eq!(adapter.get_uuids(), Ok(uuids));
    let ad_datas = vec!["first".to_string(), "second".to_string()];
    assert_eq!(adapter.set_ad_datas(ad_datas.clone()), Ok(()));
    assert_eq!(adapter.get_ad_datas(), Ok(ad_datas));
}

#[test]
fn a_new_mock_adapter_has_the_defaults_of_the_test_stack() {
    let adapter = mock_adapter();
    assert_eq!(adapter.get_id(), "");
    assert_eq!(adapter.get_address(), Ok(String::new()));
    assert_eq!(adapter.is_present(), Ok(true));
    assert_eq!(adapter.is_powered(), Ok(false));
    assert_eq!(adapter.get_class(), Ok(0));
    assert_eq!(adapter.get_ad_datas(), Ok(vec![]));
}

#[test]
fn device_setters_are_read_back() {
    let adapter = mock_adapter();
    let device = mock_device(&adapter, "dev1");
    assert_eq!(device.set_rssi(-42), Ok(()));
    assert_eq!(device.get_rssi(), Ok(-42));
    assert_eq!(device.set_tx_power(-7), Ok(()));
    assert_eq!(device.get_tx_power(), Ok(-7));
    assert_eq!(device.set_address("00:11:22:33:44:55".to_string()), Ok(()));
    assert_eq!(device.get_address(), Ok("00:11:22:33:44:55".to_string()));
    assert_eq!(device.set_name(Some("heart rate".to_string())), Ok(()));
    assert_eq!(device.get_name(), Ok("heart rate".to_string()));
    assert_eq!(device.set_icon("audio-card".to_string()), Ok(()));
    assert_eq!(device.get_icon(), Ok("audio-card".to_string()));
    assert_eq!(device.set_class(7936), Ok(()));
    assert_eq!(device.get_class(), Ok(7936));
    assert_eq!(device.set_appearance(832), Ok(()));
    assert_eq!(device.get_appearance(), Ok(832));
    let uuids = vec!["0000180d-0000-1000-8000-00805f9b34fb".to_string()];
    assert_eq!(device.set_uuids(uuids.clone()), Ok(()));
    assert_eq!(device.get_uuids(), Ok(uuids));
    assert_eq!(device.set_paired(true), Ok(()));
    assert_eq!(device.is_paired(), Ok(true));
    assert_eq!(device.set_connected(true), Ok(()));
    assert_eq!(device.is_connected(), Ok(true));
    assert_eq!(device.set_connectable(true), Ok(()));
    assert_eq!(device.is_connectable(), Ok(true));
    assert_eq!(device.set_trusted(true), Ok(()));
    assert_eq!(device.is_trusted(), Ok(true));
    assert_eq!(device.set_blocked(true), Ok(()));
    assert_eq!(device.is_blocked(), Ok(true));
    assert_eq!(device.set_alias("bike".to_string()), Ok(()));
    assert_eq!(device.get_alias(), Ok("bike".to_string()));
    assert_eq!(device.set_legacy_pairing(true), Ok(()));
    assert_eq!(device.is_legacy_pairing(), Ok(true));
    assert_eq!(device.set_id("dev9".to_string()), Ok(()));
    assert_eq!(device.get_id(), "dev9");
}

#[test]
fn device_data_maps_are_read_back() {
    let adapter = mock_adapter();
    let device = mock_device(&adapter, "dev1");
    let mut manufacturer_data = HashMap::new();
    manufacturer_data.insert(0x004c_u16, vec![2_u8, 21]);
    manufacturer_data.insert(17_u16, vec![]);
    assert_eq!(device.set_manufacturer_data(manufacturer_data.clone()), Ok(()));
    assert_eq!(device.get_manufacturer_data(), Ok(manufacturer_data));
    let mut service_data = HashMap::new();
    service_data.insert("0000180f-0000-1000-8000-00805f9b34fb".to_string(), vec![100_u8]);
    assert_eq!(device.set_service_data(service_data.clone()), Ok(()));
    assert_eq!(device.get_service_data(), Ok(service_data));
}

#[test]
fn a_name_that_is_taken_away_is_no_longer_told() {
    let adapter = mock_adapter();
    let device = mock_device(&adapter, "dev1");
    device.set_name(Some("heart rate".to_string())).unwrap();
    assert_eq!(device.set_name(None), Ok(()));
    assert_eq!(
        device.get_name(),
        Err(BluetoothError::Native("Could not get the value.".to_string()))
    );
}

#[test]
fn what_was_never_scripted_is_a_native_failure() {
    let adapter = mock_adapter();
    let device = mock_device(&adapter, "dev1");
    let expected = Err(BluetoothError::Native("Could not get the value.".to_string()));
    assert_eq!(device.get_rssi(), expected);
    let service = mock_service(&device, "svc1");
    let characteristic = mock_characteristic(&service, "c1");
    assert_eq!(
        characteristic.get_value(),
        Err(BluetoothError::Native("Could not get the value.".to_string()))
    );
}

#[test]
fn device_commands_reach_the_test_stack() {
    let adapter = mock_adapter();
    let device = mock_device(&adapter, "dev1");
    assert_eq!(
        device.connect(),
        Err(BluetoothError::Native("Could not connect to the device.".to_string()))
    );
    device.set_connectable(true).unwrap();
    assert_eq!(device.connect(), Ok(()));
    assert_eq!(device.is_connected(), Ok(true));
    assert_eq!(device.disconnect(), Ok(()));
    assert_eq!(device.is_connected(), Ok(false));
    assert_eq!(
        device.disconnect(),
        Err(BluetoothError::Native("The device is not connected.".to_string()))
    );
    assert_eq!(device.pair(), Ok(()));
    assert_eq!(device.is_paired(), Ok(true));
    assert_eq!(device.cancel_pairing(), Ok(()));
    assert_eq!(device.is_paired(), Ok(false));
}

#[test]
fn service_setters_are_read_back() {
    let adapter = mock_adapter();
    let device = mock_device(&adapter, "dev1");
    let service = mock_service(&device, "svc1");
    assert_eq!(service.is_primary(), Ok(true));
    assert_eq!(service.set_primary(false), Ok(()));
    assert_eq!(service.is_primary(), Ok(false));
    assert_eq!(service.set_uuid("0000180a-0000-1000-8000-00805f9b34fb".to_string()), Ok(()));
    assert_eq!(service.get_uuid(), Ok("0000180a-0000-1000-8000-00805f9b34fb".to_string()));
    assert_eq!(service.set_id("svc2".to_string()), Ok(()));
    assert_eq!(service.get_id(), "svc2");
}

#[test]
fn characteristic_setters_are_read_back() {
    let adapter = mock_adapter();
    let device = mock_device(&adapter, "dev1");
    let service = mock_service(&device, "svc1");
    let characteristic = mock_characteristic(&service, "c1");
    assert_eq!(characteristic.set_uuid("00002a19-0000-1000-8000-00805f9b34fb".to_string()), Ok(()));
    assert_eq!(
        characteristic.get_uuid(),
        Ok("00002a19-0000-1000-8000-00805f9b34fb".to_string())
    );
    assert_eq!(characteristic.set_notifying(true), Ok(()));
    assert_eq!(characteristic.is_notifying(), Ok(true));
    let flags = vec!["read".to_string(), "notify".to_string()];
    assert_eq!(characteristic.set_flags(flags.clone()), Ok(()));
    assert_eq!(characteristic.get_flags(), Ok(flags));
    assert_eq!(characteristic.set_value(vec![]), Ok(()));
    assert_eq!(characteristic.get_value(), Ok(vec![]));
    assert_eq!(characteristic.set_id("c2".to_string()), Ok(()));
    assert_eq!(characteristic.get_id(), "c2");
}

#[test]
fn characteristic_commands_reach_the_test_stack() {
    let adapter = mock_adapter();
    let device = mock_device(&adapter, "dev1");
    let service = mock_service(&device, "svc1");
    let characteristic = mock_characteristic(&service, "c1");
    assert_eq!(characteristic.write_value(vec![9, 8, 7]), Ok(()));
    assert_eq!(characteristic.read_value(), Ok(vec![9, 8, 7]));
    assert_eq!(characteristic.get_value(), Ok(vec![9, 8, 7]));
    assert_eq!(characteristic.start_notify(), Ok(()));
    assert_eq!(characteristic.is_notifying(), Ok(true));
    assert_eq!(characteristic.stop_notify(), Ok(()));
    assert_eq!(characteristic.is_notifying(), Ok(false));
}

#[test]
fn descriptor_setters_are_read_back() {
    let adapter = mock_adapter();
    let device = mock_device(&adapter, "dev1");
    let service = mock_service(&device, "svc1");
    let characteristic = mock_characteristic(&service, "c1");
    let descriptor = mock_descriptor(&characteristic, "d1");
    assert_eq!(descriptor.set_uuid("00002902-0000-1000-8000-00805f9b34fb".to_string()), Ok(()));
    assert_eq!(descriptor.get_uuid(), Ok("00002902-0000-1000-8000-00805f9b34fb".to_string()));
    assert_eq!(descriptor.set_value(vec![1, 0]), Ok(()));
    assert_eq!(descriptor.get_value(), Ok(vec![1, 0]));
    let flags = vec!["write".to_string()];
    assert_eq!(descriptor.set_flags(flags.clone()), Ok(()));
    assert_eq!(descriptor.get_flags(), Ok(flags));
    assert_eq!(descriptor.write_value(vec![0, 1]), Ok(()));
    assert_eq!(descriptor.read_value(), Ok(vec![0, 1]));
    assert_eq!(descriptor.set_id("d2".to_string()), Ok(()));
    assert_eq!(descriptor.get_id(), "d2");
}

#[test]
fn the_test_stack_tells_no_modalias() {
    let adapter = mock_adapter();
    let device = mock_device(&adapter, "dev1");
    assert_eq!(adapter.set_modalias("usb:v1D6Bp0246d0540".to_string()), Ok(()));
    assert_eq!(adapter.get_modalias(), Err(BluetoothError::NotSupported));
    assert_eq!(adapter.get_vendor_id_source(), Err(BluetoothError::NotSupported));
    assert_eq!(adapter.get_vendor_id(), Err(BluetoothError::NotSupported));
    assert_eq!(adapter.get_product_id(), Err(BluetoothError::NotSupported));
    assert_eq!(adapter.get_device_id(), Err(BluetoothError::NotSupported));
    assert_eq!(device.set_modalias("usb:v1D6Bp0246d0540".to_string()), Ok(()));
    assert_eq!(device.get_modalias(), Err(BluetoothError::NotSupported));
    assert_eq!(device.get_vendor_id_source(), Err(BluetoothError::NotSupported));
    assert_eq!(device.get_vendor_id(), Err(BluetoothError::NotSupported));
    assert_eq!(device.get_product_id(), Err(BluetoothError::NotSupported));
    assert_eq!(device.get_device_id(), Err(BluetoothError::NotSupported));
}

#[test]
fn the_test_stack_connects_no_profile() {
    let adapter = mock_adapter();
    let device = mock_device(&adapter, "dev1");
    let uuid = "0000110b-0000-1000-8000-00805f9b34fb".to_string();
    assert_eq!(device.connect_profile(uuid.clone()), Err(BluetoothError::NotSupported));
    assert_eq!(device.disconnect_profile(uuid), Err(BluetoothError::NotSupported));
}

#[test]
fn building_a_mock_object_twice_gives_the_same_object() {
    let adapter = mock_adapter();
    let device = mock_device(&adapter, "dev1");
    device.set_rssi(-60).unwrap();
    let again = mock_device(&adapter, "dev1");
    assert_eq!(again.get_rssi(), Ok(-60));
    assert_eq!(adapter.get_devices().unwrap().len(), 1);
}

#[test]
fn included_services_are_handles_under_the_device() {
    let adapter = mock_adapter();
    let device = mock_device(&adapter, "dev1");
    let service = mock_service(&device, "svc1");
    let included = service.get_includes(device.clone()).unwrap();
    assert_eq!(included.len(), 0);
    let stranger = BluetoothDevice::Empty;
    assert!(matches!(service.get_includes(stranger), Err(BluetoothError::BackendMismatch)));
}
