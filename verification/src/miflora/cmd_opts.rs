//! What the user asks of the plant sensor.

use vstd::prelude::*;

verus! {

/// Milliseconds that the adapter is looked for before a command runs.
pub const ADAPTER_TIMEOUT_MS: u32 = 4000;

/// Milliseconds that a sensor is looked for by its address.
pub const DEVICE_TIMEOUT_MS: u32 = 60_000;

/// The options of a run.
#[derive(Debug)]
pub struct CmdOpts {
    /// Write the results as JSON.
    pub json: bool,
    /// Write no headers (of no effect on JSON).
    pub no_headers: bool,
    pub cmd: Command,
}

/// The commands.
#[derive(Debug)]
pub enum Command {
    /// Look for sensors for `duration_sec` seconds.
    Scan { duration_sec: u8 },
    /// Read what the sensor measures now.
    Read { addr: String },
    /// Make the sensor blink.
    Blink { addr: String },
    /// Read the records of the sensor's history store.
    History { addr: String, from: Option<u16>, to: Option<u16>, page: Option<u16>, clear: bool },
    /// Read the number of records in the sensor's history store.
    HistoryCount { addr: String },
    /// Clear the sensor's history store.
    HistoryClear { addr: String },
}

/// The address that a command names, if it names one.
pub open spec fn address_of(cmd: Command) -> Option<String> {
    match cmd {
        Command::Scan { .. } => None,
        Command::Read { addr } => Some(addr),
        Command::Blink { addr } => Some(addr),
        Command::History { addr, .. } => Some(addr),
        Command::HistoryCount { addr } => Some(addr),
        Command::HistoryClear { addr } => Some(addr),
    }
}

/// How long a command looks for its sensors, in milliseconds: a scan for
/// as many seconds as it was given, every other command for a minute.
pub open spec fn search_timeout_of(cmd: Command) -> u32 {
    match cmd {
        Command::Scan { duration_sec } => (duration_sec * 1000) as u32,
        _ => DEVICE_TIMEOUT_MS,
    }
}

impl Command {
    /// The address of the sensor that the command is about.
    pub fn addr(&self) -> (r: Option<&String>)
        ensures
            match r {
                Some(a) => address_of(*self) == Some(*a),
                None => address_of(*self) is None,
            },
    {
        match self {
            Command::Scan { .. } => None,
            Command::Read { addr } => Some(addr),
            Command::Blink { addr } => Some(addr),
            Command::History { addr, .. } => Some(addr),
            Command::HistoryCount { addr } => Some(addr),
            Command::HistoryClear { addr } => Some(addr),
        }
    }

    /// How long the command looks for its sensors, in milliseconds.
    pub fn search_timeout_ms(&self) -> (r: u32)
        ensures
            r == search_timeout_of(*self),
    {
        match self {
            Command::Scan { duration_sec } => *duration_sec as u32 * 1000,
            _ => DEVICE_TIMEOUT_MS,
        }
    }
}

} // verus!
