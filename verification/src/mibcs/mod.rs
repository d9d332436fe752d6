//! The body-composition scale, heard through its advertising broadcasts.

pub mod cli;
pub mod dbus_scanner;
pub mod dbus_weight_data;
pub mod scanner;
pub mod weight_data;
