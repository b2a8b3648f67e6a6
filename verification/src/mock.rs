//! The in-memory test stack, as the library sees it.
//!
//! The stack is the `blurmock` crate. Its objects keep what a test has
//! scripted behind locks that every owner of an object shares, so what a call
//! returns depends on what any owner stored before. The functions below are
//! the only places where the library calls into it. Each one makes a single
//! call and hands the answer on; a cause of failure is handed on as its text.
//! None of them is verified, and next to nothing is claimed of them: what the
//! verified code around them knows of an answer is only that there is one.
//!
//! Three operations of the stack are never called. Its modalias reader aborts
//! the program on a text that is not a well-formed modalias, which is what a
//! new object holds, and its two profile operations abort on every call.

use vstd::prelude::*;
use std::collections::HashMap;
use std::sync::Arc;
use blurmock::fake_adapter::FakeBluetoothAdapter;
use blurmock::fake_characteristic::FakeBluetoothGATTCharacteristic;
use blurmock::fake_descriptor::FakeBluetoothGATTDescriptor;
use blurmock::fake_device::FakeBluetoothDevice;
use blurmock::fake_discovery_session::FakeBluetoothDiscoverySession;
use blurmock::fake_service::FakeBluetoothGATTService;

verus! {

/// The test stack's local adapter. Opaque: the library only carries it.
#[verifier::external_type_specification]
#[verifier::external_body]
pub struct ExFakeBluetoothAdapter(blurmock::fake_adapter::FakeBluetoothAdapter);

/// The test stack's remote device. Opaque: the library only carries it.
#[verifier::external_type_specification]
#[verifier::external_body]
pub struct ExFakeBluetoothDevice(blurmock::fake_device::FakeBluetoothDevice);

/// The test stack's GATT service. Opaque: the library only carries it.
#[verifier::external_type_specification]
#[verifier::external_body]
pub struct ExFakeBluetoothGATTService(blurmock::fake_service::FakeBluetoothGATTService);

/// The test stack's GATT characteristic. Opaque: the library only carries it.
#[verifier::external_type_specification]
#[verifier::external_body]
pub struct ExFakeBluetoothGATTCharacteristic(blurmock::fake_characteristic::FakeBluetoothGATTCharacteristic);

/// The test stack's GATT descriptor. Opaque: the library only carries it.
#[verifier::external_type_specification]
#[verifier::external_body]
pub struct ExFakeBluetoothGATTDescriptor(blurmock::fake_descriptor::FakeBluetoothGATTDescriptor);

/// The test stack's discovery session. Opaque: the library only carries it.
#[verifier::external_type_specification]
#[verifier::external_body]
pub struct ExFakeBluetoothDiscoverySession(blurmock::fake_discovery_session::FakeBluetoothDiscoverySession);

/// Calls `FakeBluetoothAdapter::new_empty`, which builds a new adapter that
/// knows no device. Nothing is claimed of it.
#[verifier::external_body]
pub(crate) fn adapter_new_empty() -> Arc<FakeBluetoothAdapter> {
    FakeBluetoothAdapter::new_empty()
}

/// Calls `FakeBluetoothDevice::new_empty`, which hands out the device that
/// `adapter` knows under `id`, after adding an empty one if there was none.
/// Nothing is claimed of it.
#[verifier::external_body]
pub(crate) fn device_new_empty(adapter: Arc<FakeBluetoothAdapter>, id: String) -> Arc<
    FakeBluetoothDevice,
> {
    FakeBluetoothDevice::new_empty(adapter, id)
}

/// Calls `FakeBluetoothGATTService::new_empty`, which hands out the service
/// that `device` lists under `id`, or else adds an empty one to it. Nothing
/// is claimed of it.
#[verifier::external_body]
pub(crate) fn service_new_empty(device: Arc<FakeBluetoothDevice>, id: String) -> Arc<
    FakeBluetoothGATTService,
> {
    FakeBluetoothGATTService::new_empty(device, id)
}

/// Calls `FakeBluetoothGATTCharacteristic::new_empty`, which hands out the
/// characteristic that `service` knows under `id`, after adding an empty one
/// if there was none. Nothing is claimed of it.
#[verifier::external_body]
pub(crate) fn characteristic_new_empty(service: Arc<FakeBluetoothGATTService>, id: String) -> Arc<
    FakeBluetoothGATTCharacteristic,
> {
    FakeBluetoothGATTCharacteristic::new_empty(service, id)
}

/// Calls `FakeBluetoothGATTDescriptor::new_empty`, which hands out the
/// descriptor that `characteristic` knows under `id`, after adding an empty
/// one if there was none. Nothing is claimed of it.
#[verifier::external_body]
pub(crate) fn descriptor_new_empty(
    characteristic: Arc<FakeBluetoothGATTCharacteristic>,
    id: String,
) -> Arc<FakeBluetoothGATTDescriptor> {
    FakeBluetoothGATTDescriptor::new_empty(characteristic, id)
}

/// Calls `FakeBluetoothDiscoverySession::create_session`. Claimed: the call
/// succeeds, as its body builds the session and returns it without any test.
#[verifier::external_body]
pub(crate) fn session_create(adapter: Arc<FakeBluetoothAdapter>) -> (r: Result<
    FakeBluetoothDiscoverySession,
    String,
>)
    ensures
        r is Ok,
{
    match FakeBluetoothDiscoverySession::create_session(adapter) {
        Ok(session) => Ok(session),
        Err(cause) => Err(cause.to_string()),
    }
}

/// Calls `FakeBluetoothAdapter::get_id`; nothing is claimed of its answer.
#[verifier::external_body]
pub(crate) fn adapter_get_id(adapter: &Arc<FakeBluetoothAdapter>) -> String {
    adapter.get_id()
}

/// Calls `FakeBluetoothAdapter::set_id`, which returns nothing.
#[verifier::external_body]
pub(crate) fn adapter_set_id(adapter: &Arc<FakeBluetoothAdapter>, id: String) {
    adapter.set_id(id)
}

/// Calls `FakeBluetoothDevice::get_id`; nothing is claimed of its answer.
#[verifier::external_body]
pub(crate) fn device_get_id(device: &Arc<FakeBluetoothDevice>) -> String {
    device.get_id()
}

/// Calls `FakeBluetoothDevice::set_id`, which returns nothing.
#[verifier::external_body]
pub(crate) fn device_set_id(device: &Arc<FakeBluetoothDevice>, id: String) {
    device.set_id(id)
}

/// Calls `FakeBluetoothGATTService::get_id`; nothing is claimed of its answer.
#[verifier::external_body]
pub(crate) fn service_get_id(service: &Arc<FakeBluetoothGATTService>) -> String {
    service.get_id()
}

/// Calls `FakeBluetoothGATTService::set_id`, which returns nothing.
#[verifier::external_body]
pub(crate) fn service_set_id(service: &Arc<FakeBluetoothGATTService>, id: String) {
    service.set_id(id)
}

/// Calls `FakeBluetoothGATTCharacteristic::get_id`; nothing is claimed of its answer.
#[verifier::external_body]
pub(crate) fn characteristic_get_id(fake: &Arc<FakeBluetoothGATTCharacteristic>) -> String {
    fake.get_id()
}

/// Calls `FakeBluetoothGATTCharacteristic::set_id`, which returns nothing.
#[verifier::external_body]
pub(crate) fn characteristic_set_id(fake: &Arc<FakeBluetoothGATTCharacteristic>, id: String) {
    fake.set_id(id)
}

/// Calls `FakeBluetoothGATTDescriptor::get_id`; nothing is claimed of its answer.
#[verifier::external_body]
pub(crate) fn descriptor_get_id(descriptor: &Arc<FakeBluetoothGATTDescriptor>) -> String {
    descriptor.get_id()
}

/// Calls `FakeBluetoothGATTDescriptor::set_id`, which returns nothing.
#[verifier::external_body]
pub(crate) fn descriptor_set_id(descriptor: &Arc<FakeBluetoothGATTDescriptor>, id: String) {
    descriptor.set_id(id)
}

/// Calls `FakeBluetoothAdapter::get_device_list`; nothing is claimed of its answer.
#[verifier::external_body]
pub(crate) fn adapter_get_device_list(
    adapter: &Arc<FakeBluetoothAdapter>,
) -> Result<Vec<String>, String> {
    match adapter.get_device_list() {
        Ok(value) => Ok(value),
        Err(cause) => Err(cause.to_string()),
    }
}

/// Calls `FakeBluetoothAdapter::get_address`; nothing is claimed of its answer.
#[verifier::external_body]
pub(crate) fn adapter_get_address(adapter: &Arc<FakeBluetoothAdapter>) -> Result<String, String> {
    match adapter.get_address() {
        Ok(value) => Ok(value),
        Err(cause) => Err(cause.to_string()),
    }
}

/// Calls `FakeBluetoothAdapter::set_address`; nothing is claimed of its answer.
#[verifier::external_body]
pub(crate) fn adapter_set_address(
    adapter: &Arc<FakeBluetoothAdapter>,
    address: String,
) -> Result<(), String> {
    match adapter.set_address(address) {
        Ok(value) => Ok(value),
        Err(cause) => Err(cause.to_string()),
    }
}

/// Calls `FakeBluetoothAdapter::get_name`; nothing is claimed of its answer.
#[verifier::external_body]
pub(crate) fn adapter_get_name(adapter: &Arc<FakeBluetoothAdapter>) -> Result<String, String> {
    match adapter.get_name() {
        Ok(value) => Ok(value),
        Err(cause) => Err(cause.to_string()),
    }
}

/// Calls `FakeBluetoothAdapter::set_name`; nothing is claimed of its answer.
#[verifier::external_body]
pub(crate) fn adapter_set_name(
    adapter: &Arc<FakeBluetoothAdapter>,
    name: String,
) -> Result<(), String> {
    match adapter.set_name(name) {
        Ok(value) => Ok(value),
        Err(cause) => Err(cause.to_string()),
    }
}

/// Calls `FakeBluetoothAdapter::get_alias`; nothing is claimed of its answer.
#[verifier::external_body]
pub(crate) fn adapter_get_alias(adapter: &Arc<FakeBluetoothAdapter>) -> Result<String, String> {
    match adapter.get_alias() {
        Ok(value) => Ok(value),
        Err(cause) => Err(cause.to_string()),
    }
}

/// Calls `FakeBluetoothAdapter::set_alias`; nothing is claimed of its answer.
#[verifier::external_body]
pub(crate) fn adapter_set_alias(
    adapter: &Arc<FakeBluetoothAdapter>,
    alias: String,
) -> Result<(), String> {
    match adapter.set_alias(alias) {
        Ok(value) => Ok(value),
        Err(cause) => Err(cause.to_string()),
    }
}

/// Calls `FakeBluetoothAdapter::get_class`; nothing is claimed of its answer.
#[verifier::external_body]
pub(crate) fn adapter_get_class(adapter: &Arc<FakeBluetoothAdapter>) -> Result<u32, String> {
    match adapter.get_class() {
        Ok(value) => Ok(value),
        Err(cause) => Err(cause.to_string()),
    }
}

/// Calls `FakeBluetoothAdapter::set_class`; nothing is claimed of its answer.
#[verifier::external_body]
pub(crate) fn adapter_set_class(
    adapter: &Arc<FakeBluetoothAdapter>,
    class: u32,
) -> Result<(), String> {
    match adapter.set_class(class) {
        Ok(value) => Ok(value),
        Err(cause) => Err(cause.to_string()),
    }
}

/// Calls `FakeBluetoothAdapter::is_powered`; nothing is claimed of its answer.
#[verifier::external_body]
pub(crate) fn adapter_is_powered(adapter: &Arc<FakeBluetoothAdapter>) -> Result<bool, String> {
    match adapter.is_powered() {
        Ok(value) => Ok(value),
        Err(cause) => Err(cause.to_string()),
    }
}

/// Calls `FakeBluetoothAdapter::set_powered`; nothing is claimed of its answer.
#[verifier::external_body]
pub(crate) fn adapter_set_powered(
    adapter: &Arc<FakeBluetoothAdapter>,
    powered: bool,
) -> Result<(), String> {
    match adapter.set_powered(powered) {
        Ok(value) => Ok(value),
        Err(cause) => Err(cause.to_string()),
    }
}

/// Calls `FakeBluetoothAdapter::is_present`; nothing is claimed of its answer.
#[verifier::external_body]
pub(crate) fn adapter_is_present(adapter: &Arc<FakeBluetoothAdapter>) -> Result<bool, String> {
    match adapter.is_present() {
        Ok(value) => Ok(value),
        Err(cause) => Err(cause.to_string()),
    }
}

/// Calls `FakeBluetoothAdapter::set_present`; nothing is claimed of its answer.
#[verifier::external_body]
pub(crate) fn adapter_set_present(
    adapter: &Arc<FakeBluetoothAdapter>,
    present: bool,
) -> Result<(), String> {
    match adapter.set_present(present) {
        Ok(value) => Ok(value),
        Err(cause) => Err(cause.to_string()),
    }
}

/// Calls `FakeBluetoothAdapter::is_discoverable`; nothing is claimed of its answer.
#[verifier::external_body]
pub(crate) fn adapter_is_discoverable(adapter: &Arc<FakeBluetoothAdapter>) -> Result<bool, String> {
    match adapter.is_discoverable() {
        Ok(value) => Ok(value),
        Err(cause) => Err(cause.to_string()),
    }
}

/// Calls `FakeBluetoothAdapter::set_discoverable`; nothing is claimed of its answer.
#[verifier::external_body]
pub(crate) fn adapter_set_discoverable(
    adapter: &Arc<FakeBluetoothAdapter>,
    discoverable: bool,
) -> Result<(), String> {
    match adapter.set_discoverable(discoverable) {
        Ok(value) => Ok(value),
        Err(cause) => Err(cause.to_string()),
    }
}

/// Calls `FakeBluetoothAdapter::is_pairable`; nothing is claimed of its answer.
#[verifier::external_body]
pub(crate) fn adapter_is_pairable(adapter: &Arc<FakeBluetoothAdapter>) -> Result<bool, String> {
    match adapter.is_pairable() {
        Ok(value) => Ok(value),
        Err(cause) => Err(cause.to_string()),
    }
}

/// Calls `FakeBluetoothAdapter::set_pairable`; nothing is claimed of its answer.
#[verifier::external_body]
pub(crate) fn adapter_set_pairable(
    adapter: &Arc<FakeBluetoothAdapter>,
    pairable: bool,
) -> Result<(), String> {
    match adapter.set_pairable(pairable) {
        Ok(value) => Ok(value),
        Err(cause) => Err(cause.to_string()),
    }
}

/// Calls `FakeBluetoothAdapter::get_pairable_timeout`; nothing is claimed of its answer.
#[verifier::external_body]
pub(crate) fn adapter_get_pairable_timeout(
    adapter: &Arc<FakeBluetoothAdapter>,
) -> Result<u32, String> {
    match adapter.get_pairable_timeout() {
        Ok(value) => Ok(value),
        Err(cause) => Err(cause.to_string()),
    }
}

/// Calls `FakeBluetoothAdapter::set_pairable_timeout`; nothing is claimed of its answer.
#[verifier::external_body]
pub(crate) fn adapter_set_pairable_timeout(
    adapter: &Arc<FakeBluetoothAdapter>,
    timeout: u32,
) -> Result<(), String> {
    match adapter.set_pairable_timeout(timeout) {
        Ok(value) => Ok(value),
        Err(cause) => Err(cause.to_string()),
    }
}

/// Calls `FakeBluetoothAdapter::get_discoverable_timeout`; nothing is claimed of its answer.
#[verifier::external_body]
pub(crate) fn adapter_get_discoverable_timeout(
    adapter: &Arc<FakeBluetoothAdapter>,
) -> Result<u32, String> {
    match adapter.get_discoverable_timeout() {
        Ok(value) => Ok(value),
        Err(cause) => Err(cause.to_string()),
    }
}

/// Calls `FakeBluetoothAdapter::set_discoverable_timeout`; nothing is claimed of its answer.
#[verifier::external_body]
pub(crate) fn adapter_set_discoverable_timeout(
    adapter: &Arc<FakeBluetoothAdapter>,
    timeout: u32,
) -> Result<(), String> {
    match adapter.set_discoverable_timeout(timeout) {
        Ok(value) => Ok(value),
        Err(cause) => Err(cause.to_string()),
    }
}

/// Calls `FakeBluetoothAdapter::is_discovering`; nothing is claimed of its answer.
#[verifier::external_body]
pub(crate) fn adapter_is_discovering(adapter: &Arc<FakeBluetoothAdapter>) -> Result<bool, String> {
    match adapter.is_discovering() {
        Ok(value) => Ok(value),
        Err(cause) => Err(cause.to_string()),
    }
}

/// Calls `FakeBluetoothAdapter::set_discovering`; nothing is claimed of its answer.
#[verifier::external_body]
pub(crate) fn adapter_set_discovering(
    adapter: &Arc<FakeBluetoothAdapter>,
    discovering: bool,
) -> Result<(), String> {
    match adapter.set_discovering(discovering) {
        Ok(value) => Ok(value),
        Err(cause) => Err(cause.to_string()),
    }
}

/// Calls `FakeBluetoothAdapter::set_can_start_discovery`; nothing is claimed of its answer.
#[verifier::external_body]
pub(crate) fn adapter_set_can_start_discovery(
    adapter: &Arc<FakeBluetoothAdapter>,
    can_start_discovery: bool,
) -> Result<(), String> {
    match adapter.set_can_start_discovery(can_start_discovery) {
        Ok(value) => Ok(value),
        Err(cause) => Err(cause.to_string()),
    }
}

/// Calls `FakeBluetoothAdapter::set_can_stop_discovery`; nothing is claimed of its answer.
#[verifier::external_body]
pub(crate) fn adapter_set_can_stop_discovery(
    adapter: &Arc<FakeBluetoothAdapter>,
    can_stop_discovery: bool,
) -> Result<(), String> {
    match adapter.set_can_stop_discovery(can_stop_discovery) {
        Ok(value) => Ok(value),
        Err(cause) => Err(cause.to_string()),
    }
}

/// Calls `FakeBluetoothAdapter::get_uuids`; nothing is claimed of its answer.
#[verifier::external_body]
pub(crate) fn adapter_get_uuids(
    adapter: &Arc<FakeBluetoothAdapter>,
) -> Result<Vec<String>, String> {
    match adapter.get_uuids() {
        Ok(value) => Ok(value),
        Err(cause) => Err(cause.to_string()),
    }
}

/// Calls `FakeBluetoothAdapter::set_uuids`; nothing is claimed of its answer.
#[verifier::external_body]
pub(crate) fn adapter_set_uuids(
    adapter: &Arc<FakeBluetoothAdapter>,
    uuids: Vec<String>,
) -> Result<(), String> {
    match adapter.set_uuids(uuids) {
        Ok(value) => Ok(value),
        Err(cause) => Err(cause.to_string()),
    }
}

/// Calls `FakeBluetoothAdapter::set_modalias`; nothing is claimed of its answer.
#[verifier::external_body]
pub(crate) fn adapter_set_modalias(
    adapter: &Arc<FakeBluetoothAdapter>,
    modalias: String,
) -> Result<(), String> {
    match adapter.set_modalias(modalias) {
        Ok(value) => Ok(value),
        Err(cause) => Err(cause.to_string()),
    }
}

/// Calls `FakeBluetoothAdapter::get_ad_datas`; nothing is claimed of its answer.
#[verifier::external_body]
pub(crate) fn adapter_get_ad_datas(
    adapter: &Arc<FakeBluetoothAdapter>,
) -> Result<Vec<String>, String> {
    match adapter.get_ad_datas() {
        Ok(value) => Ok(value),
        Err(cause) => Err(cause.to_string()),
    }
}

/// Calls `FakeBluetoothAdapter::set_ad_datas`; nothing is claimed of its answer.
#[verifier::external_body]
pub(crate) fn adapter_set_ad_datas(
    adapter: &Arc<FakeBluetoothAdapter>,
    ad_datas: Vec<String>,
) -> Result<(), String> {
    match adapter.set_ad_datas(ad_datas) {
        Ok(value) => Ok(value),
        Err(cause) => Err(cause.to_string()),
    }
}

/// Calls `FakeBluetoothDevice::get_address`; nothing is claimed of its answer.
#[verifier::external_body]
pub(crate) fn device_get_address(device: &Arc<FakeBluetoothDevice>) -> Result<String, String> {
    match device.get_address() {
        Ok(value) => Ok(value),
        Err(cause) => Err(cause.to_string()),
    }
}

/// Calls `FakeBluetoothDevice::set_address`; nothing is claimed of its answer.
#[verifier::external_body]
pub(crate) fn device_set_address(
    device: &Arc<FakeBluetoothDevice>,
    address: String,
) -> Result<(), String> {
    match device.set_address(address) {
        Ok(value) => Ok(value),
        Err(cause) => Err(cause.to_string()),
    }
}

/// Calls `FakeBluetoothDevice::get_name`; nothing is claimed of its answer.
#[verifier::external_body]
pub(crate) fn device_get_name(device: &Arc<FakeBluetoothDevice>) -> Result<String, String> {
    match device.get_name() {
        Ok(value) => Ok(value),
        Err(cause) => Err(cause.to_string()),
    }
}

/// Calls `FakeBluetoothDevice::set_name`; nothing is claimed of its answer.
#[verifier::external_body]
pub(crate) fn device_set_name(
    device: &Arc<FakeBluetoothDevice>,
    name: Option<String>,
) -> Result<(), String> {
    match device.set_name(name) {
        Ok(value) => Ok(value),
        Err(cause) => Err(cause.to_string()),
    }
}

/// Calls `FakeBluetoothDevice::get_icon`; nothing is claimed of its answer.
#[verifier::external_body]
pub(crate) fn device_get_icon(device: &Arc<FakeBluetoothDevice>) -> Result<String, String> {
    match device.get_icon() {
        Ok(value) => Ok(value),
        Err(cause) => Err(cause.to_string()),
    }
}

/// Calls `FakeBluetoothDevice::set_icon`; nothing is claimed of its answer.
#[verifier::external_body]
pub(crate) fn device_set_icon(
    device: &Arc<FakeBluetoothDevice>,
    icon: String,
) -> Result<(), String> {
    match device.set_icon(icon) {
        Ok(value) => Ok(value),
        Err(cause) => Err(cause.to_string()),
    }
}

/// Calls `FakeBluetoothDevice::get_class`; nothing is claimed of its answer.
#[verifier::external_body]
pub(crate) fn device_get_class(device: &Arc<FakeBluetoothDevice>) -> Result<u32, String> {
    match device.get_class() {
        Ok(value) => Ok(value),
        Err(cause) => Err(cause.to_string()),
    }
}

/// Calls `FakeBluetoothDevice::set_class`; nothing is claimed of its answer.
#[verifier::external_body]
pub(crate) fn device_set_class(
    device: &Arc<FakeBluetoothDevice>,
    class: u32,
) -> Result<(), String> {
    match device.set_class(class) {
        Ok(value) => Ok(value),
        Err(cause) => Err(cause.to_string()),
    }
}

/// Calls `FakeBluetoothDevice::get_appearance`; nothing is claimed of its answer.
#[verifier::external_body]
pub(crate) fn device_get_appearance(device: &Arc<FakeBluetoothDevice>) -> Result<u16, String> {
    match device.get_appearance() {
        Ok(value) => Ok(value),
        Err(cause) => Err(cause.to_string()),
    }
}

/// Calls `FakeBluetoothDevice::set_appearance`; nothing is claimed of its answer.
#[verifier::external_body]
pub(crate) fn device_set_appearance(
    device: &Arc<FakeBluetoothDevice>,
    appearance: Option<u16>,
) -> Result<(), String> {
    match device.set_appearance(appearance) {
        Ok(value) => Ok(value),
        Err(cause) => Err(cause.to_string()),
    }
}

/// Calls `FakeBluetoothDevice::get_uuids`; nothing is claimed of its answer.
#[verifier::external_body]
pub(crate) fn device_get_uuids(device: &Arc<FakeBluetoothDevice>) -> Result<Vec<String>, String> {
    match device.get_uuids() {
        Ok(value) => Ok(value),
        Err(cause) => Err(cause.to_string()),
    }
}

/// Calls `FakeBluetoothDevice::set_uuids`; nothing is claimed of its answer.
#[verifier::external_body]
pub(crate) fn device_set_uuids(
    device: &Arc<FakeBluetoothDevice>,
    uuids: Vec<String>,
) -> Result<(), String> {
    match device.set_uuids(uuids) {
        Ok(value) => Ok(value),
        Err(cause) => Err(cause.to_string()),
    }
}

/// Calls `FakeBluetoothDevice::is_paired`; nothing is claimed of its answer.
#[verifier::external_body]
pub(crate) fn device_is_paired(device: &Arc<FakeBluetoothDevice>) -> Result<bool, String> {
    match device.is_paired() {
        Ok(value) => Ok(value),
        Err(cause) => Err(cause.to_string()),
    }
}

/// Calls `FakeBluetoothDevice::set_paired`; nothing is claimed of its answer.
#[verifier::external_body]
pub(crate) fn device_set_paired(
    device: &Arc<FakeBluetoothDevice>,
    paired: bool,
) -> Result<(), String> {
    match device.set_paired(paired) {
        Ok(value) => Ok(value),
        Err(cause) => Err(cause.to_string()),
    }
}

/// Calls `FakeBluetoothDevice::is_connected`; nothing is claimed of its answer.
#[verifier::external_body]
pub(crate) fn device_is_connected(device: &Arc<FakeBluetoothDevice>) -> Result<bool, String> {
    match device.is_connected() {
        Ok(value) => Ok(value),
        Err(cause) => Err(cause.to_string()),
    }
}

/// Calls `FakeBluetoothDevice::set_connected`; nothing is claimed of its answer.
#[verifier::external_body]
pub(crate) fn device_set_connected(
    device: &Arc<FakeBluetoothDevice>,
    connected: bool,
) -> Result<(), String> {
    match device.set_connected(connected) {
        Ok(value) => Ok(value),
        Err(cause) => Err(cause.to_string()),
    }
}

/// Calls `FakeBluetoothDevice::is_connectable`; nothing is claimed of its answer.
#[verifier::external_body]
pub(crate) fn device_is_connectable(device: &Arc<FakeBluetoothDevice>) -> Result<bool, String> {
    match device.is_connectable() {
        Ok(value) => Ok(value),
        Err(cause) => Err(cause.to_string()),
    }
}

/// Calls `FakeBluetoothDevice::set_connectable`; nothing is claimed of its answer.
#[verifier::external_body]
pub(crate) fn device_set_connectable(
    device: &Arc<FakeBluetoothDevice>,
    connectable: bool,
) -> Result<(), String> {
    match device.set_connectable(connectable) {
        Ok(value) => Ok(value),
        Err(cause) => Err(cause.to_string()),
    }
}

/// Calls `FakeBluetoothDevice::is_trusted`; nothing is claimed of its answer.
#[verifier::external_body]
pub(crate) fn device_is_trusted(device: &Arc<FakeBluetoothDevice>) -> Result<bool, String> {
    match device.is_trusted() {
        Ok(value) => Ok(value),
        Err(cause) => Err(cause.to_string()),
    }
}

/// Calls `FakeBluetoothDevice::set_trusted`; nothing is claimed of its answer.
#[verifier::external_body]
pub(crate) fn device_set_trusted(
    device: &Arc<FakeBluetoothDevice>,
    trusted: bool,
) -> Result<(), String> {
    match device.set_trusted(trusted) {
        Ok(value) => Ok(value),
        Err(cause) => Err(cause.to_string()),
    }
}

/// Calls `FakeBluetoothDevice::is_blocked`; nothing is claimed of its answer.
#[verifier::external_body]
pub(crate) fn device_is_blocked(device: &Arc<FakeBluetoothDevice>) -> Result<bool, String> {
    match device.is_blocked() {
        Ok(value) => Ok(value),
        Err(cause) => Err(cause.to_string()),
    }
}

/// Calls `FakeBluetoothDevice::set_blocked`; nothing is claimed of its answer.
#[verifier::external_body]
pub(crate) fn device_set_blocked(
    device: &Arc<FakeBluetoothDevice>,
    blocked: bool,
) -> Result<(), String> {
    match device.set_blocked(blocked) {
        Ok(value) => Ok(value),
        Err(cause) => Err(cause.to_string()),
    }
}

/// Calls `FakeBluetoothDevice::get_alias`; nothing is claimed of its answer.
#[verifier::external_body]
pub(crate) fn device_get_alias(device: &Arc<FakeBluetoothDevice>) -> Result<String, String> {
    match device.get_alias() {
        Ok(value) => Ok(value),
        Err(cause) => Err(cause.to_string()),
    }
}

/// Calls `FakeBluetoothDevice::set_alias`; nothing is claimed of its answer.
#[verifier::external_body]
pub(crate) fn device_set_alias(
    device: &Arc<FakeBluetoothDevice>,
    alias: String,
) -> Result<(), String> {
    match device.set_alias(alias) {
        Ok(value) => Ok(value),
        Err(cause) => Err(cause.to_string()),
    }
}

/// Calls `FakeBluetoothDevice::is_legacy_pairing`; nothing is claimed of its answer.
#[verifier::external_body]
pub(crate) fn device_is_legacy_pairing(device: &Arc<FakeBluetoothDevice>) -> Result<bool, String> {
    match device.is_legacy_pairing() {
        Ok(value) => Ok(value),
        Err(cause) => Err(cause.to_string()),
    }
}

/// Calls `FakeBluetoothDevice::set_legacy_pairing`; nothing is claimed of its answer.
#[verifier::external_body]
pub(crate) fn device_set_legacy_pairing(
    device: &Arc<FakeBluetoothDevice>,
    legacy_pairing: bool,
) -> Result<(), String> {
    match device.set_legacy_pairing(legacy_pairing) {
        Ok(value) => Ok(value),
        Err(cause) => Err(cause.to_string()),
    }
}

/// Calls `FakeBluetoothDevice::set_modalias`; nothing is claimed of its answer.
#[verifier::external_body]
pub(crate) fn device_set_modalias(
    device: &Arc<FakeBluetoothDevice>,
    modalias: String,
) -> Result<(), String> {
    match device.set_modalias(modalias) {
        Ok(value) => Ok(value),
        Err(cause) => Err(cause.to_string()),
    }
}

/// Calls `FakeBluetoothDevice::get_rssi`; nothing is claimed of its answer.
#[verifier::external_body]
pub(crate) fn device_get_rssi(device: &Arc<FakeBluetoothDevice>) -> Result<i16, String> {
    match device.get_rssi() {
        Ok(value) => Ok(value),
        Err(cause) => Err(cause.to_string()),
    }
}

/// Calls `FakeBluetoothDevice::set_rssi`; nothing is claimed of its answer.
#[verifier::external_body]
pub(crate) fn device_set_rssi(
    device: &Arc<FakeBluetoothDevice>,
    rssi: Option<i16>,
) -> Result<(), String> {
    match device.set_rssi(rssi) {
        Ok(value) => Ok(value),
        Err(cause) => Err(cause.to_string()),
    }
}

/// Calls `FakeBluetoothDevice::get_tx_power`; nothing is claimed of its answer.
#[verifier::external_body]
pub(crate) fn device_get_tx_power(device: &Arc<FakeBluetoothDevice>) -> Result<i16, String> {
    match device.get_tx_power() {
        Ok(value) => Ok(value),
        Err(cause) => Err(cause.to_string()),
    }
}

/// Calls `FakeBluetoothDevice::set_tx_power`; nothing is claimed of its answer.
#[verifier::external_body]
pub(crate) fn device_set_tx_power(
    device: &Arc<FakeBluetoothDevice>,
    tx_power: Option<i16>,
) -> Result<(), String> {
    match device.set_tx_power(tx_power) {
        Ok(value) => Ok(value),
        Err(cause) => Err(cause.to_string()),
    }
}

/// Calls `FakeBluetoothDevice::get_manufacturer_data`; nothing is claimed of its answer.
#[verifier::external_body]
pub(crate) fn device_get_manufacturer_data(
    device: &Arc<FakeBluetoothDevice>,
) -> Result<HashMap<u16, Vec<u8>>, String> {
    match device.get_manufacturer_data() {
        Ok(value) => Ok(value),
        Err(cause) => Err(cause.to_string()),
    }
}

/// Calls `FakeBluetoothDevice::set_manufacturer_data`; nothing is claimed of its answer.
#[verifier::external_body]
pub(crate) fn device_set_manufacturer_data(
    device: &Arc<FakeBluetoothDevice>,
    manufacturer_data: Option<HashMap<u16, Vec<u8>>>,
) -> Result<(), String> {
    match device.set_manufacturer_data(manufacturer_data) {
        Ok(value) => Ok(value),
        Err(cause) => Err(cause.to_string()),
    }
}

/// Calls `FakeBluetoothDevice::get_service_data`; nothing is claimed of its answer.
#[verifier::external_body]
pub(crate) fn device_get_service_data(
    device: &Arc<FakeBluetoothDevice>,
) -> Result<HashMap<String, Vec<u8>>, String> {
    match device.get_service_data() {
        Ok(value) => Ok(value),
        Err(cause) => Err(cause.to_string()),
    }
}

/// Calls `FakeBluetoothDevice::set_service_data`; nothing is claimed of its answer.
#[verifier::external_body]
pub(crate) fn device_set_service_data(
    device: &Arc<FakeBluetoothDevice>,
    service_data: Option<HashMap<String, Vec<u8>>>,
) -> Result<(), String> {
    match device.set_service_data(service_data) {
        Ok(value) => Ok(value),
        Err(cause) => Err(cause.to_string()),
    }
}

/// Calls `FakeBluetoothDevice::get_gatt_services`; nothing is claimed of its answer.
#[verifier::external_body]
pub(crate) fn device_get_gatt_services(
    device: &Arc<FakeBluetoothDevice>,
) -> Result<Vec<String>, String> {
    match device.get_gatt_services() {
        Ok(value) => Ok(value),
        Err(cause) => Err(cause.to_string()),
    }
}

/// Calls `FakeBluetoothDevice::connect`; nothing is claimed of its answer.
#[verifier::external_body]
pub(crate) fn device_connect(device: &Arc<FakeBluetoothDevice>) -> Result<(), String> {
    match device.connect() {
        Ok(value) => Ok(value),
        Err(cause) => Err(cause.to_string()),
    }
}

/// Calls `FakeBluetoothDevice::disconnect`; nothing is claimed of its answer.
#[verifier::external_body]
pub(crate) fn device_disconnect(device: &Arc<FakeBluetoothDevice>) -> Result<(), String> {
    match device.disconnect() {
        Ok(value) => Ok(value),
        Err(cause) => Err(cause.to_string()),
    }
}

/// Calls `FakeBluetoothDevice::pair`; nothing is claimed of its answer.
#[verifier::external_body]
pub(crate) fn device_pair(device: &Arc<FakeBluetoothDevice>) -> Result<(), String> {
    match device.pair() {
        Ok(value) => Ok(value),
        Err(cause) => Err(cause.to_string()),
    }
}

/// Calls `FakeBluetoothDevice::cancel_pairing`; nothing is claimed of its answer.
#[verifier::external_body]
pub(crate) fn device_cancel_pairing(device: &Arc<FakeBluetoothDevice>) -> Result<(), String> {
    match device.cancel_pairing() {
        Ok(value) => Ok(value),
        Err(cause) => Err(cause.to_string()),
    }
}

/// Calls `FakeBluetoothGATTService::get_uuid`; nothing is claimed of its answer.
#[verifier::external_body]
pub(crate) fn service_get_uuid(service: &Arc<FakeBluetoothGATTService>) -> Result<String, String> {
    match service.get_uuid() {
        Ok(value) => Ok(value),
        Err(cause) => Err(cause.to_string()),
    }
}

/// Calls `FakeBluetoothGATTService::set_uuid`; nothing is claimed of its answer.
#[verifier::external_body]
pub(crate) fn service_set_uuid(
    service: &Arc<FakeBluetoothGATTService>,
    uuid: String,
) -> Result<(), String> {
    match service.set_uuid(uuid) {
        Ok(value) => Ok(value),
        Err(cause) => Err(cause.to_string()),
    }
}

/// Calls `FakeBluetoothGATTService::is_primary`; nothing is claimed of its answer.
#[verifier::external_body]
pub(crate) fn service_is_primary(service: &Arc<FakeBluetoothGATTService>) -> Result<bool, String> {
    match service.is_primary() {
        Ok(value) => Ok(value),
        Err(cause) => Err(cause.to_string()),
    }
}

/// Calls `FakeBluetoothGATTService::set_is_primary`; nothing is claimed of its answer.
#[verifier::external_body]
pub(crate) fn service_set_is_primary(
    service: &Arc<FakeBluetoothGATTService>,
    primary: bool,
) -> Result<(), String> {
    match service.set_is_primary(primary) {
        Ok(value) => Ok(value),
        Err(cause) => Err(cause.to_string()),
    }
}

/// Calls `FakeBluetoothGATTService::get_includes`; nothing is claimed of its answer.
#[verifier::external_body]
pub(crate) fn service_get_includes(
    service: &Arc<FakeBluetoothGATTService>,
) -> Result<Vec<String>, String> {
    match service.get_includes() {
        Ok(value) => Ok(value),
        Err(cause) => Err(cause.to_string()),
    }
}

/// Calls `FakeBluetoothGATTService::get_gatt_characteristics`; nothing is claimed of its answer.
#[verifier::external_body]
pub(crate) fn service_get_gatt_characteristics(
    service: &Arc<FakeBluetoothGATTService>,
) -> Result<Vec<String>, String> {
    match service.get_gatt_characteristics() {
        Ok(value) => Ok(value),
        Err(cause) => Err(cause.to_string()),
    }
}

/// Calls `FakeBluetoothGATTCharacteristic::get_uuid`; nothing is claimed of its answer.
#[verifier::external_body]
pub(crate) fn characteristic_get_uuid(
    characteristic: &Arc<FakeBluetoothGATTCharacteristic>,
) -> Result<String, String> {
    match characteristic.get_uuid() {
        Ok(value) => Ok(value),
        Err(cause) => Err(cause.to_string()),
    }
}

/// Calls `FakeBluetoothGATTCharacteristic::set_uuid`; nothing is claimed of its answer.
#[verifier::external_body]
pub(crate) fn characteristic_set_uuid(
    characteristic: &Arc<FakeBluetoothGATTCharacteristic>,
    uuid: String,
) -> Result<(), String> {
    match characteristic.set_uuid(uuid) {
        Ok(value) => Ok(value),
        Err(cause) => Err(cause.to_string()),
    }
}

/// Calls `FakeBluetoothGATTCharacteristic::get_value`; nothing is claimed of its answer.
#[verifier::external_body]
pub(crate) fn characteristic_get_value(
    characteristic: &Arc<FakeBluetoothGATTCharacteristic>,
) -> Result<Vec<u8>, String> {
    match characteristic.get_value() {
        Ok(value) => Ok(value),
        Err(cause) => Err(cause.to_string()),
    }
}

/// Calls `FakeBluetoothGATTCharacteristic::set_value`; nothing is claimed of its answer.
#[verifier::external_body]
pub(crate) fn characteristic_set_value(
    characteristic: &Arc<FakeBluetoothGATTCharacteristic>,
    value: Option<Vec<u8>>,
) -> Result<(), String> {
    match characteristic.set_value(value) {
        Ok(value) => Ok(value),
        Err(cause) => Err(cause.to_string()),
    }
}

/// Calls `FakeBluetoothGATTCharacteristic::is_notifying`; nothing is claimed of its answer.
#[verifier::external_body]
pub(crate) fn characteristic_is_notifying(
    characteristic: &Arc<FakeBluetoothGATTCharacteristic>,
) -> Result<bool, String> {
    match characteristic.is_notifying() {
        Ok(value) => Ok(value),
        Err(cause) => Err(cause.to_string()),
    }
}

/// Calls `FakeBluetoothGATTCharacteristic::set_notifying`; nothing is claimed of its answer.
#[verifier::external_body]
pub(crate) fn characteristic_set_notifying(
    characteristic: &Arc<FakeBluetoothGATTCharacteristic>,
    notifying: bool,
) -> Result<(), String> {
    match characteristic.set_notifying(notifying) {
        Ok(value) => Ok(value),
        Err(cause) => Err(cause.to_string()),
    }
}

/// Calls `FakeBluetoothGATTCharacteristic::get_flags`; nothing is claimed of its answer.
#[verifier::external_body]
pub(crate) fn characteristic_get_flags(
    characteristic: &Arc<FakeBluetoothGATTCharacteristic>,
) -> Result<Vec<String>, String> {
    match characteristic.get_flags() {
        Ok(value) => Ok(value),
        Err(cause) => Err(cause.to_string()),
    }
}

/// Calls `FakeBluetoothGATTCharacteristic::set_flags`; nothing is claimed of its answer.
#[verifier::external_body]
pub(crate) fn characteristic_set_flags(
    characteristic: &Arc<FakeBluetoothGATTCharacteristic>,
    flags: Vec<String>,
) -> Result<(), String> {
    match characteristic.set_flags(flags) {
        Ok(value) => Ok(value),
        Err(cause) => Err(cause.to_string()),
    }
}

/// Calls `FakeBluetoothGATTCharacteristic::get_gatt_descriptors`; nothing is claimed of its answer.
#[verifier::external_body]
pub(crate) fn characteristic_get_gatt_descriptors(
    characteristic: &Arc<FakeBluetoothGATTCharacteristic>,
) -> Result<Vec<String>, String> {
    match characteristic.get_gatt_descriptors() {
        Ok(value) => Ok(value),
        Err(cause) => Err(cause.to_string()),
    }
}

/// Calls `FakeBluetoothGATTCharacteristic::read_value`; nothing is claimed of its answer.
#[verifier::external_body]
pub(crate) fn characteristic_read_value(
    characteristic: &Arc<FakeBluetoothGATTCharacteristic>,
) -> Result<Vec<u8>, String> {
    match characteristic.read_value() {
        Ok(value) => Ok(value),
        Err(cause) => Err(cause.to_string()),
    }
}

/// Calls `FakeBluetoothGATTCharacteristic::write_value`; nothing is claimed of its answer.
#[verifier::external_body]
pub(crate) fn characteristic_write_value(
    characteristic: &Arc<FakeBluetoothGATTCharacteristic>,
    values: Vec<u8>,
) -> Result<(), String> {
    match characteristic.write_value(values) {
        Ok(value) => Ok(value),
        Err(cause) => Err(cause.to_string()),
    }
}

/// Calls `FakeBluetoothGATTCharacteristic::start_notify`; nothing is claimed of its answer.
#[verifier::external_body]
pub(crate) fn characteristic_start_notify(
    characteristic: &Arc<FakeBluetoothGATTCharacteristic>,
) -> Result<(), String> {
    match characteristic.start_notify() {
        Ok(value) => Ok(value),
        Err(cause) => Err(cause.to_string()),
    }
}

/// Calls `FakeBluetoothGATTCharacteristic::stop_notify`; nothing is claimed of its answer.
#[verifier::external_body]
pub(crate) fn characteristic_stop_notify(
    characteristic: &Arc<FakeBluetoothGATTCharacteristic>,
) -> Result<(), String> {
    match characteristic.stop_notify() {
        Ok(value) => Ok(value),
        Err(cause) => Err(cause.to_string()),
    }
}

/// Calls `FakeBluetoothGATTDescriptor::get_uuid`; nothing is claimed of its answer.
#[verifier::external_body]
pub(crate) fn descriptor_get_uuid(
    descriptor: &Arc<FakeBluetoothGATTDescriptor>,
) -> Result<String, String> {
    match descriptor.get_uuid() {
        Ok(value) => Ok(value),
        Err(cause) => Err(cause.to_string()),
    }
}

/// Calls `FakeBluetoothGATTDescriptor::set_uuid`; nothing is claimed of its answer.
#[verifier::external_body]
pub(crate) fn descriptor_set_uuid(
    descriptor: &Arc<FakeBluetoothGATTDescriptor>,
    uuid: String,
) -> Result<(), String> {
    match descriptor.set_uuid(uuid) {
        Ok(value) => Ok(value),
        Err(cause) => Err(cause.to_string()),
    }
}

/// Calls `FakeBluetoothGATTDescriptor::get_value`; nothing is claimed of its answer.
#[verifier::external_body]
pub(crate) fn descriptor_get_value(
    descriptor: &Arc<FakeBluetoothGATTDescriptor>,
) -> Result<Vec<u8>, String> {
    match descriptor.get_value() {
        Ok(value) => Ok(value),
        Err(cause) => Err(cause.to_string()),
    }
}

/// Calls `FakeBluetoothGATTDescriptor::set_value`; nothing is claimed of its answer.
#[verifier::external_body]
pub(crate) fn descriptor_set_value(
    descriptor: &Arc<FakeBluetoothGATTDescriptor>,
    value: Option<Vec<u8>>,
) -> Result<(), String> {
    match descriptor.set_value(value) {
        Ok(value) => Ok(value),
        Err(cause) => Err(cause.to_string()),
    }
}

/// Calls `FakeBluetoothGATTDescriptor::get_flags`; nothing is claimed of its answer.
#[verifier::external_body]
pub(crate) fn descriptor_get_flags(
    descriptor: &Arc<FakeBluetoothGATTDescriptor>,
) -> Result<Vec<String>, String> {
    match descriptor.get_flags() {
        Ok(value) => Ok(value),
        Err(cause) => Err(cause.to_string()),
    }
}

/// Calls `FakeBluetoothGATTDescriptor::set_flags`; nothing is claimed of its answer.
#[verifier::external_body]
pub(crate) fn descriptor_set_flags(
    descriptor: &Arc<FakeBluetoothGATTDescriptor>,
    flags: Vec<String>,
) -> Result<(), String> {
    match descriptor.set_flags(flags) {
        Ok(value) => Ok(value),
        Err(cause) => Err(cause.to_string()),
    }
}

/// Calls `FakeBluetoothGATTDescriptor::read_value`; nothing is claimed of its answer.
#[verifier::external_body]
pub(crate) fn descriptor_read_value(
    descriptor: &Arc<FakeBluetoothGATTDescriptor>,
) -> Result<Vec<u8>, String> {
    match descriptor.read_value() {
        Ok(value) => Ok(value),
        Err(cause) => Err(cause.to_string()),
    }
}

/// Calls `FakeBluetoothGATTDescriptor::write_value`; nothing is claimed of its answer.
#[verifier::external_body]
pub(crate) fn descriptor_write_value(
    descriptor: &Arc<FakeBluetoothGATTDescriptor>,
    values: Vec<u8>,
) -> Result<(), String> {
    match descriptor.write_value(values) {
        Ok(value) => Ok(value),
        Err(cause) => Err(cause.to_string()),
    }
}

/// Calls `FakeBluetoothDiscoverySession::start_discovery`; nothing is claimed of its answer.
#[verifier::external_body]
pub(crate) fn session_start_discovery(
    session: &Arc<FakeBluetoothDiscoverySession>,
) -> Result<(), String> {
    match session.start_discovery() {
        Ok(value) => Ok(value),
        Err(cause) => Err(cause.to_string()),
    }
}

/// Calls `FakeBluetoothDiscoverySession::stop_discovery`; nothing is claimed of its answer.
#[verifier::external_body]
pub(crate) fn session_stop_discovery(
    session: &Arc<FakeBluetoothDiscoverySession>,
) -> Result<(), String> {
    match session.stop_discovery() {
        Ok(value) => Ok(value),
        Err(cause) => Err(cause.to_string()),
    }
}

} // verus!
