//! What is written to and read from the sensor for each thing asked of it.

use super::device::{Attribute, Error, MifloraDeviceHistoryMode, MifloraDeviceMode};
use vstd::prelude::*;

verus! {

/// How long the sensor is left to blink, in milliseconds.
pub const BLINK_MS: u64 = 1000;

/// What can be asked of the sensor.
#[derive(Clone, Copy, Debug, PartialEq, Eq, Structural)]
pub enum Operation {
    FirmwareVersion,
    BatteryPct,
    RealtimeReading,
    Blink,
    DeviceTime,
    HistoryRecordCount,
    /// The records with the numbers from `from` up to, not including, `to`.
    HistoryRecords { from: u16, to: u16 },
    ClearHistory,
}

/// One exchange with the sensor.
#[derive(Clone, Copy, Debug, PartialEq, Eq, Structural)]
pub enum Step {
    /// Write the mode's command to the mode characteristic, read the
    /// characteristic back and compare.
    SetDeviceMode(MifloraDeviceMode),
    /// Write the mode's command to the history mode characteristic.
    SetHistoryMode(MifloraDeviceHistoryMode),
    /// Read the characteristic.
    Read(Attribute),
    /// Leave the sensor alone for so many milliseconds.
    Sleep(u64),
}

/// The exchanges that fetch the records from `from` up to `to`, one after
/// the other: for each the command that selects it and the read.
pub open spec fn record_steps(from: u16, to: u16) -> Seq<Step>
    decreases to - from,
{
    if from >= to {
        Seq::empty()
    } else {
        record_steps(from, (to - 1) as u16).push(
            Step::SetHistoryMode(MifloraDeviceHistoryMode::ReadRecord((to - 1) as u16)),
        ).push(Step::Read(Attribute::HistoryData))
    }
}

/// The exchanges that an operation is made of, in their order.
pub open spec fn steps_of(operation: Operation) -> Seq<Step> {
    match operation {
        Operation::FirmwareVersion => seq![Step::Read(Attribute::Firmware)],
        Operation::BatteryPct => seq![Step::Read(Attribute::Firmware)],
        Operation::RealtimeReading => seq![
            Step::SetDeviceMode(MifloraDeviceMode::Realtime),
            Step::Read(Attribute::DeviceData),
        ],
        Operation::Blink => seq![
            Step::SetDeviceMode(MifloraDeviceMode::Blink),
            Step::Sleep(BLINK_MS),
        ],
        Operation::DeviceTime => seq![Step::Read(Attribute::DeviceTime)],
        Operation::HistoryRecordCount => seq![
            Step::SetHistoryMode(MifloraDeviceHistoryMode::Init),
            Step::Read(Attribute::HistoryData),
        ],
        Operation::HistoryRecords { from, to } => seq![
            Step::SetHistoryMode(MifloraDeviceHistoryMode::Init),
        ] + record_steps(from, to),
        Operation::ClearHistory => seq![
            Step::SetHistoryMode(MifloraDeviceHistoryMode::Init),
            Step::SetHistoryMode(MifloraDeviceHistoryMode::Clear),
        ],
    }
}

/// The characteristic that a step writes to or reads, if it does either.
pub open spec fn target_of(step: Step) -> Option<Attribute> {
    match step {
        Step::SetDeviceMode(_) => Some(Attribute::DeviceMode),
        Step::SetHistoryMode(_) => Some(Attribute::HistoryMode),
        Step::Read(attribute) => Some(attribute),
        Step::Sleep(_) => None,
    }
}

/// A write of this step is confirmed by reading the characteristic back.
pub open spec fn is_confirmed(step: Step) -> bool {
    step is SetDeviceMode
}

impl Step {
    /// The characteristic that the step writes to or reads.
    pub fn target(&self) -> (r: Option<Attribute>)
        ensures
            r == target_of(*self),
    {
        match self {
            Step::SetDeviceMode(_) => Some(Attribute::DeviceMode),
            Step::SetHistoryMode(_) => Some(Attribute::HistoryMode),
            Step::Read(attribute) => Some(*attribute),
            Step::Sleep(_) => None,
        }
    }

    /// Tells whether a write of this step is confirmed by reading the
    /// characteristic back.
    pub fn needs_confirmation(&self) -> (r: bool)
        ensures
            r == is_confirmed(*self),
    {
        match self {
            Step::SetDeviceMode(_) => true,
            _ => false,
        }
    }
}

impl Operation {
    /// The exchanges that the operation is made of, in their order.
    pub fn steps(&self) -> (r: Vec<Step>)
        ensures
            r@ == steps_of(*self),
    {
        match self {
            Operation::FirmwareVersion => vec![Step::Read(Attribute::Firmware)],
            Operation::BatteryPct => vec![Step::Read(Attribute::Firmware)],
            Operation::RealtimeReading => vec![
                Step::SetDeviceMode(MifloraDeviceMode::Realtime),
                Step::Read(Attribute::DeviceData),
            ],
            Operation::Blink => vec![
                Step::SetDeviceMode(MifloraDeviceMode::Blink),
                Step::Sleep(BLINK_MS),
            ],
            Operation::DeviceTime => vec![Step::Read(Attribute::DeviceTime)],
            Operation::HistoryRecordCount => vec![
                Step::SetHistoryMode(MifloraDeviceHistoryMode::Init),
                Step::Read(Attribute::HistoryData),
            ],
            Operation::HistoryRecords { from, to } => {
                let mut steps: Vec<Step> = vec![
                    Step::SetHistoryMode(MifloraDeviceHistoryMode::Init),
                ];
                if *from >= *to {
                    assert(steps@ =~= steps_of(*self));
                    return steps;
                }
                let mut idx: u16 = *from;
                assert(steps@ =~= seq![Step::SetHistoryMode(MifloraDeviceHistoryMode::Init)]
                    + record_steps(*from, idx));
                while idx < *to
                    invariant
                        *from <= idx <= *to,
                        steps@ == seq![Step::SetHistoryMode(MifloraDeviceHistoryMode::Init)]
                            + record_steps(*from, idx),
                    decreases *to - idx,
                {
                    steps.push(Step::SetHistoryMode(MifloraDeviceHistoryMode::ReadRecord(idx)));
                    steps.push(Step::Read(Attribute::HistoryData));
                    assert(steps@ =~= seq![Step::SetHistoryMode(MifloraDeviceHistoryMode::Init)]
                        + record_steps(*from, (idx + 1) as u16));
                    idx = idx + 1;
                }
                steps
            },
            Operation::ClearHistory => vec![
                Step::SetHistoryMode(MifloraDeviceHistoryMode::Init),
                Step::SetHistoryMode(MifloraDeviceHistoryMode::Clear),
            ],
        }
    }
}

/// Settles whether the sensor has taken a mode: `echoed` is what the mode
/// characteristic holds after the write.
pub fn confirm_mode(mode: MifloraDeviceMode, echoed: &[u8]) -> (r: Result<(), Error>)
    ensures
        r is Ok <==> echoed@ == super::device::device_mode_bytes(mode),
        r is Err ==> r matches Err(Error::ModeConfirmError),
{
    let command = mode.command();
    if echoed.len() != command.len() {
        return Err(Error::ModeConfirmError);
    }
    let mut i: usize = 0;
    while i < command.len()
        invariant
            i <= command@.len(),
            echoed@.len() == command@.len(),
            command@ == super::device::device_mode_bytes(mode),
            forall|j: int| 0 <= j < i ==> echoed@[j] == command@[j],
        decreases command@.len() - i,
    {
        if echoed[i] != command[i] {
            return Err(Error::ModeConfirmError);
        }
        i = i + 1;
    }
    assert(echoed@ =~= command@);
    Ok(())
}

/// Fetching records takes one command and one read for each record, after
/// one command that opens the store.
pub proof fn records_take_two_steps_each(from: u16, to: u16)
    requires
        from <= to,
    ensures
        record_steps(from, to).len() == 2 * (to - from),
        steps_of(Operation::HistoryRecords { from, to }).len() == 1 + 2 * (to - from),
    decreases to - from,
{
    if from < to {
        records_take_two_steps_each(from, (to - 1) as u16);
    }
}

/// A range that holds nothing is fetched with the one command that opens
/// the store.
pub proof fn empty_range_reads_nothing(from: u16, to: u16)
    requires
        from >= to,
    ensures
        steps_of(Operation::HistoryRecords { from, to }) == seq![
            Step::SetHistoryMode(MifloraDeviceHistoryMode::Init),
        ],
{
    assert(steps_of(Operation::HistoryRecords { from, to }) =~= seq![
        Step::SetHistoryMode(MifloraDeviceHistoryMode::Init),
    ]);
}

} // verus!
