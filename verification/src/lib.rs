//! Typed values for network configuration and their wire encodings.
//!
//! A device kind, a bonding mode and a wireless network identifier each have a
//! fixed outward form: a numeric code, a lowercase token, or raw bytes. The
//! conversions between the typed values and those forms are total in one
//! direction and validated in the other, and every contract here is stated
//! over the tables in [`device`] and [`bond`].

pub mod bond;
pub mod bus;
pub mod device;
pub mod ssid;
pub mod text;

pub use bond::{BondMode, InvalidBondMode};
pub use device::{Device, DeviceType, InvalidDeviceType};
pub use ssid::SSID;
