//! Capability-gated command model for configuring Razer laptops over USB HID.
//!
//! The crate models the command vocabulary a user can issue (read/write
//! attributes, standard and custom lighting effects), the per-model device
//! descriptor with its feature tags and fan-speed table, the validator that
//! gates commands on device capabilities, and the bus-enumeration routine
//! that discovers attached devices of the vendor's HID class.

pub mod args;
pub mod catalog;
pub mod error;
pub mod text;
pub mod usb;
pub mod validate;

pub use catalog::DeviceCatalog;
pub use catalog::SupportedDevice;
pub use error::ErrorKind;
