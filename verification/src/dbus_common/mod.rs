//! The broker's object model: values, property bags, objects, and the
//! questions asked of them.

pub mod dbus_processor;
pub mod utils;
pub mod value;
