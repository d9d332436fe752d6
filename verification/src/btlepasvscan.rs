//! What a passive scan for advertising broadcasts hands out, and how it
//! fails.

use vstd::prelude::*;
use vstd::string::StringExecFns;

verus! {

/// How a passive scan fails.
#[derive(Clone, Copy, Debug, PartialEq, Eq, Structural)]
pub enum Error {
    Context,
    Recv,
    BadData,
    SetSockOpt,
    Bind,
    HciLeSetScanParameters,
    HciLeSetScanEnable,
    HciLeSetScanDisable,
    Open,
}

/// One broadcast: the payload and the address of the sender.
#[derive(Debug)]
pub struct Data<'t> {
    pub buffer: &'t [u8],
    pub address: &'t str,
}

/// The failure that a status of the scan stands for: none for zero, the
/// failure of the context for a status that is not known.
pub open spec fn failure_of(status: i32) -> Option<Error> {
    if status == 0 {
        None
    } else if status == 1 {
        Some(Error::Recv)
    } else if status == 2 {
        Some(Error::BadData)
    } else if status == 3 {
        Some(Error::SetSockOpt)
    } else if status == 4 {
        Some(Error::Bind)
    } else if status == 5 {
        Some(Error::HciLeSetScanParameters)
    } else if status == 6 {
        Some(Error::HciLeSetScanEnable)
    } else if status == 7 {
        Some(Error::HciLeSetScanDisable)
    } else if status == 8 {
        Some(Error::Open)
    } else {
        Some(Error::Context)
    }
}

/// What a failure is called: the call that failed.
pub open spec fn prefix_of(error: Error) -> Seq<char> {
    match error {
        Error::Context => "bluetooth context "@,
        Error::Recv => "recv() "@,
        Error::SetSockOpt => "setsockopt() "@,
        Error::Bind => "bind() "@,
        Error::HciLeSetScanParameters => "hci_le_set_scan_parameters() "@,
        Error::HciLeSetScanEnable => "hci_le_set_scan_enable() "@,
        Error::HciLeSetScanDisable => "hci_le_set_scan_disable() "@,
        Error::BadData => "Received unexpected BTLE data "@,
        Error::Open => "open() "@,
    }
}

/// The failure is one of the system, whose own words are added to its
/// description.
pub open spec fn is_system_failure(error: Error) -> bool {
    error != Error::BadData && error != Error::Open
}

/// The description of a failure, where the system describes its last
/// failure as `os_error`.
pub open spec fn description_of(error: Error, os_error: Seq<char>) -> Seq<char> {
    if is_system_failure(error) {
        prefix_of(error) + os_error
    } else {
        prefix_of(error)
    }
}

impl Error {
    /// The failure that a status of the scan stands for.
    pub fn from_status(status: i32) -> (r: Option<Error>)
        ensures
            r == failure_of(status),
    {
        match status {
            0 => None,
            1 => Some(Error::Recv),
            2 => Some(Error::BadData),
            3 => Some(Error::SetSockOpt),
            4 => Some(Error::Bind),
            5 => Some(Error::HciLeSetScanParameters),
            6 => Some(Error::HciLeSetScanEnable),
            7 => Some(Error::HciLeSetScanDisable),
            8 => Some(Error::Open),
            _ => Some(Error::Context),
        }
    }

    /// The description of the failure, where the system describes its last
    /// failure as `os_error`.
    pub fn to_string(&self, os_error: &str) -> (r: String)
        ensures
            r@ == description_of(*self, os_error@),
    {
        let prefix: &'static str = match self {
            Error::Context => "bluetooth context ",
            Error::Recv => "recv() ",
            Error::SetSockOpt => "setsockopt() ",
            Error::Bind => "bind() ",
            Error::HciLeSetScanParameters => "hci_le_set_scan_parameters() ",
            Error::HciLeSetScanEnable => "hci_le_set_scan_enable() ",
            Error::HciLeSetScanDisable => "hci_le_set_scan_disable() ",
            Error::BadData => "Received unexpected BTLE data ",
            Error::Open => "open() ",
        };
        let mut text = prefix.to_owned();
        match self {
            Error::BadData => {},
            Error::Open => {},
            _ => {
                text.append(os_error);
            },
        }
        text
    }
}

} // verus!
