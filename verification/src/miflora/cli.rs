//! Options for acting on the plant sensors that the broker knows already.

use vstd::prelude::*;

verus! {

/// Which sensors are meant and what is done with them.
#[derive(Debug)]
pub struct Cli {
    /// Say what goes on.
    pub debug: bool,
    /// Only the sensor with this hardware address.
    pub address: Option<String>,
    /// Only the sensors with this name.
    pub name: Option<String>,
    /// Make the sensors blink.
    pub blink: bool,
    /// Read what the sensors measure now.
    pub realtime: bool,
}

} // verus!
