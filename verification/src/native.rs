//! What a native stack has to offer to stand behind a handle.
//!
//! The library is linked with the in-memory test stack only. A program that
//! talks to real hardware hands its platform stack to the library as
//! implementations of the traits below, one per kind of object. Every
//! operation has a body already, which reports that the stack does not offer
//! it, so an implementation states only what its platform can do. What such
//! a body answers is stated with it, and binds no implementation that
//! answers for itself.
//!
//! Nothing is promised of what an implementation returns: the library hands
//! it on. An implementation has to return from every call, with a failure
//! where it cannot do what was asked. The failures that the library raises
//! on its own account cannot be expressed here, so no stack can be mistaken
//! for the library.

use vstd::prelude::*;
use std::collections::HashMap;
use std::sync::Arc;

verus! {

/// Why a native stack did not do what was asked.
#[derive(Debug, PartialEq, Eq)]
pub enum NativeFailure {
    /// The stack does not offer the operation.
    NotSupported,
    /// The stack tried and failed; the text is its own.
    Failed(String),
}

/// A discovery session of a native stack.
pub trait SessionBackend {
    fn start_discovery(&self) -> (r: Result<(), NativeFailure>)
        default_ensures
            r == Err::<(), NativeFailure>(NativeFailure::NotSupported),
    {
        Err(NativeFailure::NotSupported)
    }

    fn stop_discovery(&self) -> (r: Result<(), NativeFailure>)
        default_ensures
            r == Err::<(), NativeFailure>(NativeFailure::NotSupported),
    {
        Err(NativeFailure::NotSupported)
    }
}

/// A GATT descriptor of a native stack.
#[allow(unused_variables)]
pub trait DescriptorBackend {
    fn get_id(&self) -> (r: String)
        default_ensures
            r@.len() == 0,
    {
        String::new()
    }

    fn get_uuid(&self) -> (r: Result<String, NativeFailure>)
        default_ensures
            r == Err::<String, NativeFailure>(NativeFailure::NotSupported),
    {
        Err(NativeFailure::NotSupported)
    }

    fn get_value(&self) -> (r: Result<Vec<u8>, NativeFailure>)
        default_ensures
            r == Err::<Vec<u8>, NativeFailure>(NativeFailure::NotSupported),
    {
        Err(NativeFailure::NotSupported)
    }

    fn get_flags(&self) -> (r: Result<Vec<String>, NativeFailure>)
        default_ensures
            r == Err::<Vec<String>, NativeFailure>(NativeFailure::NotSupported),
    {
        Err(NativeFailure::NotSupported)
    }

    fn read_value(&self) -> (r: Result<Vec<u8>, NativeFailure>)
        default_ensures
            r == Err::<Vec<u8>, NativeFailure>(NativeFailure::NotSupported),
    {
        Err(NativeFailure::NotSupported)
    }

    fn write_value(&self, values: Vec<u8>) -> (r: Result<(), NativeFailure>)
        default_ensures
            r == Err::<(), NativeFailure>(NativeFailure::NotSupported),
    {
        Err(NativeFailure::NotSupported)
    }
}

/// A GATT characteristic of a native stack.
#[allow(unused_variables)]
pub trait CharacteristicBackend {
    /// The native descriptor that the stack knows under `id`.
    fn descriptor(&self, id: String) -> NativeDescriptor;

    fn get_id(&self) -> (r: String)
        default_ensures
            r@.len() == 0,
    {
        String::new()
    }

    fn get_uuid(&self) -> (r: Result<String, NativeFailure>)
        default_ensures
            r == Err::<String, NativeFailure>(NativeFailure::NotSupported),
    {
        Err(NativeFailure::NotSupported)
    }

    fn get_value(&self) -> (r: Result<Vec<u8>, NativeFailure>)
        default_ensures
            r == Err::<Vec<u8>, NativeFailure>(NativeFailure::NotSupported),
    {
        Err(NativeFailure::NotSupported)
    }

    fn is_notifying(&self) -> (r: Result<bool, NativeFailure>)
        default_ensures
            r == Err::<bool, NativeFailure>(NativeFailure::NotSupported),
    {
        Err(NativeFailure::NotSupported)
    }

    fn get_flags(&self) -> (r: Result<Vec<String>, NativeFailure>)
        default_ensures
            r == Err::<Vec<String>, NativeFailure>(NativeFailure::NotSupported),
    {
        Err(NativeFailure::NotSupported)
    }

    /// The identifiers of the descriptors below this characteristic.
    fn get_gatt_descriptors(&self) -> (r: Result<Vec<String>, NativeFailure>)
        default_ensures
            r == Err::<Vec<String>, NativeFailure>(NativeFailure::NotSupported),
    {
        Err(NativeFailure::NotSupported)
    }

    fn read_value(&self) -> (r: Result<Vec<u8>, NativeFailure>)
        default_ensures
            r == Err::<Vec<u8>, NativeFailure>(NativeFailure::NotSupported),
    {
        Err(NativeFailure::NotSupported)
    }

    fn write_value(&self, values: Vec<u8>) -> (r: Result<(), NativeFailure>)
        default_ensures
            r == Err::<(), NativeFailure>(NativeFailure::NotSupported),
    {
        Err(NativeFailure::NotSupported)
    }

    fn start_notify(&self) -> (r: Result<(), NativeFailure>)
        default_ensures
            r == Err::<(), NativeFailure>(NativeFailure::NotSupported),
    {
        Err(NativeFailure::NotSupported)
    }

    fn stop_notify(&self) -> (r: Result<(), NativeFailure>)
        default_ensures
            r == Err::<(), NativeFailure>(NativeFailure::NotSupported),
    {
        Err(NativeFailure::NotSupported)
    }
}

/// A GATT service of a native stack.
pub trait ServiceBackend {
    /// The native characteristic that the stack knows under `id`.
    fn characteristic(&self, id: String) -> NativeCharacteristic;

    fn get_id(&self) -> (r: String)
        default_ensures
            r@.len() == 0,
    {
        String::new()
    }

    fn get_uuid(&self) -> (r: Result<String, NativeFailure>)
        default_ensures
            r == Err::<String, NativeFailure>(NativeFailure::NotSupported),
    {
        Err(NativeFailure::NotSupported)
    }

    fn is_primary(&self) -> (r: Result<bool, NativeFailure>)
        default_ensures
            r == Err::<bool, NativeFailure>(NativeFailure::NotSupported),
    {
        Err(NativeFailure::NotSupported)
    }

    /// The identifiers of the services that this service includes.
    fn get_includes(&self) -> (r: Result<Vec<String>, NativeFailure>)
        default_ensures
            r == Err::<Vec<String>, NativeFailure>(NativeFailure::NotSupported),
    {
        Err(NativeFailure::NotSupported)
    }

    /// The identifiers of the characteristics below this service.
    fn get_gatt_characteristics(&self) -> (r: Result<Vec<String>, NativeFailure>)
        default_ensures
            r == Err::<Vec<String>, NativeFailure>(NativeFailure::NotSupported),
    {
        Err(NativeFailure::NotSupported)
    }
}

/// A remote device of a native stack.
#[allow(unused_variables)]
pub trait DeviceBackend {
    /// The native service that the stack knows under `id`.
    fn service(&self, id: String) -> NativeService;

    fn get_id(&self) -> (r: String)
        default_ensures
            r@.len() == 0,
    {
        String::new()
    }

    fn get_address(&self) -> (r: Result<String, NativeFailure>)
        default_ensures
            r == Err::<String, NativeFailure>(NativeFailure::NotSupported),
    {
        Err(NativeFailure::NotSupported)
    }

    fn get_name(&self) -> (r: Result<String, NativeFailure>)
        default_ensures
            r == Err::<String, NativeFailure>(NativeFailure::NotSupported),
    {
        Err(NativeFailure::NotSupported)
    }

    fn get_icon(&self) -> (r: Result<String, NativeFailure>)
        default_ensures
            r == Err::<String, NativeFailure>(NativeFailure::NotSupported),
    {
        Err(NativeFailure::NotSupported)
    }

    fn get_class(&self) -> (r: Result<u32, NativeFailure>)
        default_ensures
            r == Err::<u32, NativeFailure>(NativeFailure::NotSupported),
    {
        Err(NativeFailure::NotSupported)
    }

    fn get_appearance(&self) -> (r: Result<u16, NativeFailure>)
        default_ensures
            r == Err::<u16, NativeFailure>(NativeFailure::NotSupported),
    {
        Err(NativeFailure::NotSupported)
    }

    fn get_uuids(&self) -> (r: Result<Vec<String>, NativeFailure>)
        default_ensures
            r == Err::<Vec<String>, NativeFailure>(NativeFailure::NotSupported),
    {
        Err(NativeFailure::NotSupported)
    }

    fn is_paired(&self) -> (r: Result<bool, NativeFailure>)
        default_ensures
            r == Err::<bool, NativeFailure>(NativeFailure::NotSupported),
    {
        Err(NativeFailure::NotSupported)
    }

    fn is_connected(&self) -> (r: Result<bool, NativeFailure>)
        default_ensures
            r == Err::<bool, NativeFailure>(NativeFailure::NotSupported),
    {
        Err(NativeFailure::NotSupported)
    }

    fn is_trusted(&self) -> (r: Result<bool, NativeFailure>)
        default_ensures
            r == Err::<bool, NativeFailure>(NativeFailure::NotSupported),
    {
        Err(NativeFailure::NotSupported)
    }

    fn is_blocked(&self) -> (r: Result<bool, NativeFailure>)
        default_ensures
            r == Err::<bool, NativeFailure>(NativeFailure::NotSupported),
    {
        Err(NativeFailure::NotSupported)
    }

    fn get_alias(&self) -> (r: Result<String, NativeFailure>)
        default_ensures
            r == Err::<String, NativeFailure>(NativeFailure::NotSupported),
    {
        Err(NativeFailure::NotSupported)
    }

    fn is_legacy_pairing(&self) -> (r: Result<bool, NativeFailure>)
        default_ensures
            r == Err::<bool, NativeFailure>(NativeFailure::NotSupported),
    {
        Err(NativeFailure::NotSupported)
    }

    fn get_vendor_id_source(&self) -> (r: Result<String, NativeFailure>)
        default_ensures
            r == Err::<String, NativeFailure>(NativeFailure::NotSupported),
    {
        Err(NativeFailure::NotSupported)
    }

    fn get_vendor_id(&self) -> (r: Result<u32, NativeFailure>)
        default_ensures
            r == Err::<u32, NativeFailure>(NativeFailure::NotSupported),
    {
        Err(NativeFailure::NotSupported)
    }

    fn get_product_id(&self) -> (r: Result<u32, NativeFailure>)
        default_ensures
            r == Err::<u32, NativeFailure>(NativeFailure::NotSupported),
    {
        Err(NativeFailure::NotSupported)
    }

    fn get_device_id(&self) -> (r: Result<u32, NativeFailure>)
        default_ensures
            r == Err::<u32, NativeFailure>(NativeFailure::NotSupported),
    {
        Err(NativeFailure::NotSupported)
    }

    /// The source of the vendor identifier, then the vendor, product and
    /// device identifiers.
    fn get_modalias(&self) -> (r: Result<(String, u32, u32, u32), NativeFailure>)
        default_ensures
            r == Err::<(String, u32, u32, u32), NativeFailure>(NativeFailure::NotSupported),
    {
        Err(NativeFailure::NotSupported)
    }

    fn get_rssi(&self) -> (r: Result<i16, NativeFailure>)
        default_ensures
            r == Err::<i16, NativeFailure>(NativeFailure::NotSupported),
    {
        Err(NativeFailure::NotSupported)
    }

    fn get_tx_power(&self) -> (r: Result<i16, NativeFailure>)
        default_ensures
            r == Err::<i16, NativeFailure>(NativeFailure::NotSupported),
    {
        Err(NativeFailure::NotSupported)
    }

    /// The manufacturer data, keyed by company identifier.
    fn get_manufacturer_data(&self) -> (r: Result<HashMap<u16, Vec<u8>>, NativeFailure>)
        default_ensures
            r == Err::<HashMap<u16, Vec<u8>>, NativeFailure>(NativeFailure::NotSupported),
    {
        Err(NativeFailure::NotSupported)
    }

    /// The service data, keyed by the service's UUID.
    fn get_service_data(&self) -> (r: Result<HashMap<String, Vec<u8>>, NativeFailure>)
        default_ensures
            r == Err::<HashMap<String, Vec<u8>>, NativeFailure>(NativeFailure::NotSupported),
    {
        Err(NativeFailure::NotSupported)
    }

    /// The identifiers of the GATT services of this device.
    fn get_gatt_services(&self) -> (r: Result<Vec<String>, NativeFailure>)
        default_ensures
            r == Err::<Vec<String>, NativeFailure>(NativeFailure::NotSupported),
    {
        Err(NativeFailure::NotSupported)
    }

    fn connect(&self) -> (r: Result<(), NativeFailure>)
        default_ensures
            r == Err::<(), NativeFailure>(NativeFailure::NotSupported),
    {
        Err(NativeFailure::NotSupported)
    }

    fn disconnect(&self) -> (r: Result<(), NativeFailure>)
        default_ensures
            r == Err::<(), NativeFailure>(NativeFailure::NotSupported),
    {
        Err(NativeFailure::NotSupported)
    }

    fn connect_profile(&self, uuid: String) -> (r: Result<(), NativeFailure>)
        default_ensures
            r == Err::<(), NativeFailure>(NativeFailure::NotSupported),
    {
        Err(NativeFailure::NotSupported)
    }

    fn disconnect_profile(&self, uuid: String) -> (r: Result<(), NativeFailure>)
        default_ensures
            r == Err::<(), NativeFailure>(NativeFailure::NotSupported),
    {
        Err(NativeFailure::NotSupported)
    }

    fn pair(&self) -> (r: Result<(), NativeFailure>)
        default_ensures
            r == Err::<(), NativeFailure>(NativeFailure::NotSupported),
    {
        Err(NativeFailure::NotSupported)
    }

    fn cancel_pairing(&self) -> (r: Result<(), NativeFailure>)
        default_ensures
            r == Err::<(), NativeFailure>(NativeFailure::NotSupported),
    {
        Err(NativeFailure::NotSupported)
    }
}

/// A local adapter of a native stack.
pub trait AdapterBackend {
    /// The native device that the stack knows under `id`.
    fn device(&self, id: String) -> NativeDevice;

    /// Opens a discovery session on this adapter.
    fn create_discovery_session(&self) -> Result<NativeSession, NativeFailure>;

    fn get_id(&self) -> (r: String)
        default_ensures
            r@.len() == 0,
    {
        String::new()
    }

    /// The identifiers of the devices that the adapter knows.
    fn get_device_list(&self) -> (r: Result<Vec<String>, NativeFailure>)
        default_ensures
            r == Err::<Vec<String>, NativeFailure>(NativeFailure::NotSupported),
    {
        Err(NativeFailure::NotSupported)
    }

    fn get_address(&self) -> (r: Result<String, NativeFailure>)
        default_ensures
            r == Err::<String, NativeFailure>(NativeFailure::NotSupported),
    {
        Err(NativeFailure::NotSupported)
    }

    fn get_name(&self) -> (r: Result<String, NativeFailure>)
        default_ensures
            r == Err::<String, NativeFailure>(NativeFailure::NotSupported),
    {
        Err(NativeFailure::NotSupported)
    }

    fn get_alias(&self) -> (r: Result<String, NativeFailure>)
        default_ensures
            r == Err::<String, NativeFailure>(NativeFailure::NotSupported),
    {
        Err(NativeFailure::NotSupported)
    }

    fn get_class(&self) -> (r: Result<u32, NativeFailure>)
        default_ensures
            r == Err::<u32, NativeFailure>(NativeFailure::NotSupported),
    {
        Err(NativeFailure::NotSupported)
    }

    fn is_powered(&self) -> (r: Result<bool, NativeFailure>)
        default_ensures
            r == Err::<bool, NativeFailure>(NativeFailure::NotSupported),
    {
        Err(NativeFailure::NotSupported)
    }

    fn is_discoverable(&self) -> (r: Result<bool, NativeFailure>)
        default_ensures
            r == Err::<bool, NativeFailure>(NativeFailure::NotSupported),
    {
        Err(NativeFailure::NotSupported)
    }

    fn is_pairable(&self) -> (r: Result<bool, NativeFailure>)
        default_ensures
            r == Err::<bool, NativeFailure>(NativeFailure::NotSupported),
    {
        Err(NativeFailure::NotSupported)
    }

    fn get_pairable_timeout(&self) -> (r: Result<u32, NativeFailure>)
        default_ensures
            r == Err::<u32, NativeFailure>(NativeFailure::NotSupported),
    {
        Err(NativeFailure::NotSupported)
    }

    fn get_discoverable_timeout(&self) -> (r: Result<u32, NativeFailure>)
        default_ensures
            r == Err::<u32, NativeFailure>(NativeFailure::NotSupported),
    {
        Err(NativeFailure::NotSupported)
    }

    fn is_discovering(&self) -> (r: Result<bool, NativeFailure>)
        default_ensures
            r == Err::<bool, NativeFailure>(NativeFailure::NotSupported),
    {
        Err(NativeFailure::NotSupported)
    }

    fn get_uuids(&self) -> (r: Result<Vec<String>, NativeFailure>)
        default_ensures
            r == Err::<Vec<String>, NativeFailure>(NativeFailure::NotSupported),
    {
        Err(NativeFailure::NotSupported)
    }

    fn get_vendor_id_source(&self) -> (r: Result<String, NativeFailure>)
        default_ensures
            r == Err::<String, NativeFailure>(NativeFailure::NotSupported),
    {
        Err(NativeFailure::NotSupported)
    }

    fn get_vendor_id(&self) -> (r: Result<u32, NativeFailure>)
        default_ensures
            r == Err::<u32, NativeFailure>(NativeFailure::NotSupported),
    {
        Err(NativeFailure::NotSupported)
    }

    fn get_product_id(&self) -> (r: Result<u32, NativeFailure>)
        default_ensures
            r == Err::<u32, NativeFailure>(NativeFailure::NotSupported),
    {
        Err(NativeFailure::NotSupported)
    }

    fn get_device_id(&self) -> (r: Result<u32, NativeFailure>)
        default_ensures
            r == Err::<u32, NativeFailure>(NativeFailure::NotSupported),
    {
        Err(NativeFailure::NotSupported)
    }

    /// The source of the vendor identifier, then the vendor, product and
    /// device identifiers.
    fn get_modalias(&self) -> (r: Result<(String, u32, u32, u32), NativeFailure>)
        default_ensures
            r == Err::<(String, u32, u32, u32), NativeFailure>(NativeFailure::NotSupported),
    {
        Err(NativeFailure::NotSupported)
    }
}

/// Shared ownership of an object of a native stack.
pub struct Native<T: ?Sized> {
    pub stack: Arc<T>,
}

/// Shared ownership of a native discovery session.
pub type NativeSession = Native<dyn SessionBackend>;

/// Shared ownership of a native GATT descriptor.
pub type NativeDescriptor = Native<dyn DescriptorBackend>;

/// Shared ownership of a native GATT characteristic.
pub type NativeCharacteristic = Native<dyn CharacteristicBackend>;

/// Shared ownership of a native GATT service.
pub type NativeService = Native<dyn ServiceBackend>;

/// Shared ownership of a native remote device.
pub type NativeDevice = Native<dyn DeviceBackend>;

/// Shared ownership of a native local adapter.
pub type NativeAdapter = Native<dyn AdapterBackend>;

/// One more owner of the object behind `link`.
///
/// Trusted: stands for `Arc::clone`, which hands out another pointer to the
/// same allocation, so the result refers to the very object that `link`
/// refers to.
#[verifier::external_body]
pub(crate) fn share<T: ?Sized>(link: &Arc<T>) -> (r: Arc<T>)
    ensures
        r == *link,
{
    Arc::clone(link)
}

impl<T: ?Sized> Clone for Native<T> {
    /// Another owner of the same native object.
    fn clone(&self) -> (r: Self)
        ensures
            r == *self,
    {
        Native { stack: share(&self.stack) }
    }
}

} // verus!
