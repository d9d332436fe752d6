//! Options of a scan for the scale.

use vstd::prelude::*;

verus! {

/// How long a scan for the scale goes on.
#[derive(Clone, Copy, Debug, PartialEq, Eq, Structural)]
pub struct Cli {
    /// Wait for an announcement and stop when it was made.
    pub until_data: bool,
    /// How many seconds the scan may take; 0 is forever.
    pub duration: u64,
}

} // verus!
