//! One stable Bluetooth Low Energy API over several native stacks.
//!
//! A handle (adapter, device, GATT service, characteristic, descriptor,
//! discovery session) is a closed sum over the stacks that can stand behind
//! it: the Linux, Android and macOS stacks, no stack at all, and the
//! in-memory test stack. The variant is the handle's tag, and three rules
//! hang on it:
//!
//! - a handle that is derived from another one is on the stack of its parent
//!   (`create_device`, `get_gatt_services` and their like);
//! - the test surface, which scripts what the test stack tells, is closed on
//!   every other stack (`test_surface`), and a mock object is built under a
//!   parent on the test stack only (`mock_parent`);
//! - without a stack every operation of the production surface fails as not
//!   supported (`Backend::answers`).
//!
//! What a stack answers is not known before it is asked, and the library
//! claims nothing of it. What the library does with an answer is stated
//! where the answer is an argument: `error::forward` and `error::relay` for
//! a single answer, `from_listing` for listed children, `lookup` and
//! `BluetoothAdapter::pick_device` for the lookup of a device by address, and
//! `SessionState` for the commands of a discovery session.
//!
//! The library is linked with the test stack only, see `mock`. A platform
//! stack is handed in by the program that uses the library, as
//! implementations of the traits in `native`.

pub mod error;
pub mod backend;
pub mod native;
pub mod mock;
pub mod lookup;
pub mod session;
pub mod adapter;
pub mod device;
pub mod service;
pub mod characteristic;
pub mod descriptor;

pub use crate::adapter::BluetoothAdapter;
pub use crate::backend::Backend;
pub use crate::characteristic::BluetoothGATTCharacteristic;
pub use crate::descriptor::BluetoothGATTDescriptor;
pub use crate::device::BluetoothDevice;
pub use crate::error::BluetoothError;
pub use crate::native::NativeFailure;
pub use crate::service::BluetoothGATTService;
pub use crate::session::{BluetoothDiscoverySession, SessionState};
