//! One measurement of the scale, as the broker hands it out in the service
//! data of the device.

use crate::clock::now_millis;
use crate::wire::{le_u16, read_le_u16};
use vstd::prelude::*;

verus! {

/// What is reported as the origin of a measurement.
pub const SOURCE: &'static str = "hat-mibcs";

/// The length of the service data of the scale: two status bytes, the date
/// and time in seven bytes, impedance and weight in two bytes each.
pub const SERVICE_DATA_LEN: usize = 13;

/// Why service data could not be decoded.
#[derive(Clone, Copy, Debug, PartialEq, Eq, Structural)]
pub enum DecodeError {
    /// The data end before the last field does.
    UnexpectedEof,
}

/// A measurement of the scale. The time is in milliseconds, the weight in
/// units of five grams.
#[derive(Debug)]
pub struct WeightData {
    pub source: &'static str,
    pub address: String,
    pub created_at: i64,
    pub weight: Option<u16>,
    pub impedance: Option<u16>,
}

/// A measurement as a mathematical value.
pub struct Measurement {
    pub source: Seq<char>,
    pub address: Seq<char>,
    pub created_at: i64,
    pub weight: Option<u16>,
    pub impedance: Option<u16>,
}

impl View for WeightData {
    type V = Measurement;

    open spec fn view(&self) -> Measurement {
        Measurement {
            source: self.source@,
            address: self.address@,
            created_at: self.created_at,
            weight: self.weight,
            impedance: self.impedance,
        }
    }
}

/// The measurement in service data heard at `now`: a value is reported
/// where the scale has it and says that it has settled.
pub open spec fn decoded(value: Seq<u8>, btaddr: Seq<char>, now: i64) -> Result<
    Measurement,
    DecodeError,
> {
    if value.len() < SERVICE_DATA_LEN {
        Err(DecodeError::UnexpectedEof)
    } else {
        let status = value[1];
        let got_impedance = status & 0b0000_0010 != 0;
        let got_weight = status & 0b0000_0100 != 0;
        let weight_stabilized = status & 0b0010_0000 != 0;
        let impedance_stabilized = status & 0b1000_0000 != 0;
        Ok(
            Measurement {
                source: SOURCE@,
                address: btaddr,
                created_at: now,
                weight: if got_weight && weight_stabilized {
                    Some(le_u16(value, 11) as u16)
                } else {
                    None
                },
                impedance: if got_impedance && impedance_stabilized {
                    Some(le_u16(value, 9) as u16)
                } else {
                    None
                },
            },
        )
    }
}

/// A decoded measurement or the failure, as a mathematical value.
pub open spec fn result_view(r: Result<WeightData, DecodeError>) -> Result<
    Measurement,
    DecodeError,
> {
    match r {
        Ok(w) => Ok(w@),
        Err(e) => Err(e),
    }
}

impl WeightData {
    /// Decodes service data heard at `now`.
    pub fn decode_at(value: &[u8], btaddr: &str, now: i64) -> (r: Result<WeightData, DecodeError>)
        ensures
            result_view(r) == decoded(value@, btaddr@, now),
    {
        if value.len() < SERVICE_DATA_LEN {
            return Err(DecodeError::UnexpectedEof);
        }
        let statusbit1: u8 = value[1];
        let impedance: u16 = read_le_u16(value, 9);
        let weight: u16 = read_le_u16(value, 11);

        let got_impedance: bool = statusbit1 & 0b0000_0010 != 0;
        let got_weight: bool = statusbit1 & 0b0000_0100 != 0;
        let weight_stabilized: bool = statusbit1 & 0b0010_0000 != 0;
        let impedance_stabilized: bool = statusbit1 & 0b1000_0000 != 0;

        Ok(
            WeightData {
                source: SOURCE,
                address: btaddr.to_owned(),
                created_at: now,
                weight: if got_weight && weight_stabilized {
                    Some(weight)
                } else {
                    None
                },
                impedance: if got_impedance && impedance_stabilized {
                    Some(impedance)
                } else {
                    None
                },
            },
        )
    }

    /// Decodes service data heard just now, as `decode_at` does for the
    /// time the clock showed, which is the measurement's `created_at`.
    pub fn decode(value: &[u8], btaddr: &str) -> (r: Result<WeightData, DecodeError>)
        ensures
            match r {
                Ok(w) => decoded(value@, btaddr@, w.created_at) == Ok::<Measurement, DecodeError>(
                    w@,
                ),
                Err(e) => value@.len() < SERVICE_DATA_LEN && e == DecodeError::UnexpectedEof,
            },
    {
        WeightData::decode_at(value, btaddr, now_millis())
    }

    /// Tells whether the measurement is complete: it has an impedance.
    pub fn done(&self) -> (r: bool)
        ensures
            r == self.impedance is Some,
    {
        self.impedance.is_some()
    }
}

} // verus!
