//! The plant sensor, reached through the broker.

pub mod cli;
pub mod cmd_opts;
pub mod connected;
pub mod dbus_bluez;
pub mod device;
pub mod history;
pub mod protocol;
pub mod retry;
pub mod search;
