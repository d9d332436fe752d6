//! Advertising data of Bluetooth Low Energy peripherals.

pub mod adtype;
pub mod advertising_data;
