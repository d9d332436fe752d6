//! Building blocks for reading two Bluetooth Low Energy peripherals, a
//! plant sensor and a body-composition scale: decoding of advertising
//! payloads, debouncing of scale readings, a local mirror of the broker's
//! object tree, and the control protocol of the plant sensor.
//!
//! The library neither reads nor writes: input and output stay with the
//! caller, who hands in what was received and does what the library asks
//! for. Its functions are verified against the contracts they carry. The
//! few that call into other crates say in their documentation what is
//! taken on trust.

pub mod bluetooth;
pub mod btlepasvscan;
pub mod clock;
pub mod dbus_common;
pub mod mibcs;
pub mod miflora;
pub mod str_map;
pub mod text;
pub mod wire;
