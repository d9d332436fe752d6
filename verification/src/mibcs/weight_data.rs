//! One measurement of the scale, gathered from its broadcasts.
//!
//! The scale repeats its broadcast many times while someone stands on it.
//! A reading is created from the first broadcast of an address, follows the
//! later ones, and is announced once per measurement.

use crate::bluetooth::adtype::Adtype;
use crate::bluetooth::advertising_data::{elements_of, AdElement, AdvertisingData};
use crate::clock::{elapsed_exceeds, has_elapsed, now_millis};
use crate::wire::le_u16;
use vstd::prelude::*;

verus! {

/// Seconds of silence after which a reading belongs to a new measurement.
pub const STALE_AFTER_SECONDS: u32 = 5;

/// The shortest service data that holds every field of a reading.
pub const SERVICE_DATA_LEN: usize = 15;

/// Grams in one unit of the weight field: the scale counts in hundredths
/// of a jin, which is half a kilogram.
pub const GRAMS_PER_UNIT: u32 = 5;

/// The latest state of a measurement of the scale at `address`.
#[derive(Debug)]
pub struct WeightData {
    pub address: String,
    /// When the first broadcast was heard, in milliseconds.
    pub created_at: i64,
    /// When the latest broadcast was heard, in milliseconds.
    pub updated_at: i64,
    /// When the status bytes last changed, in milliseconds.
    pub status_updated_at: i64,
    pub announced: bool,
    pub announcable: bool,
    /// The weight in units of five grams.
    pub weight: u16,
    pub impedance: u32,
    pub statusbits0: u8,
    pub statusbits1: u8,
    pub got_impedance: bool,
    pub got_weight: bool,
    pub weight_stabilized: bool,
    pub impedance_stabilized: bool,
}

/// What is told of a finished measurement.
#[derive(Debug)]
pub struct WeightDataAnnouncement {
    pub source: String,
    pub address: String,
    /// When the first broadcast of the reading was heard, in milliseconds.
    pub datetime: i64,
    /// The weight in units of five grams, if the scale had one.
    pub weight: Option<u16>,
    pub impedance: Option<u32>,
}

/// A reading as a mathematical value.
pub struct Reading {
    pub address: Seq<char>,
    pub created_at: i64,
    pub updated_at: i64,
    pub status_updated_at: i64,
    pub announced: bool,
    pub announcable: bool,
    pub weight: u16,
    pub impedance: u32,
    pub statusbits0: u8,
    pub statusbits1: u8,
    pub got_impedance: bool,
    pub got_weight: bool,
    pub weight_stabilized: bool,
    pub impedance_stabilized: bool,
}

/// An announcement as a mathematical value.
pub struct Announcement {
    pub source: Seq<char>,
    pub address: Seq<char>,
    pub datetime: i64,
    pub weight: Option<u16>,
    pub impedance: Option<u32>,
}

impl View for WeightData {
    type V = Reading;

    open spec fn view(&self) -> Reading {
        Reading {
            address: self.address@,
            created_at: self.created_at,
            updated_at: self.updated_at,
            status_updated_at: self.status_updated_at,
            announced: self.announced,
            announcable: self.announcable,
            weight: self.weight,
            impedance: self.impedance,
            statusbits0: self.statusbits0,
            statusbits1: self.statusbits1,
            got_impedance: self.got_impedance,
            got_weight: self.got_weight,
            weight_stabilized: self.weight_stabilized,
            impedance_stabilized: self.impedance_stabilized,
        }
    }
}

impl View for WeightDataAnnouncement {
    type V = Announcement;

    open spec fn view(&self) -> Announcement {
        Announcement {
            source: self.source@,
            address: self.address@,
            datetime: self.datetime,
            weight: self.weight,
            impedance: self.impedance,
        }
    }
}

/// The elements are those of a broadcast of the scale: flags, a list of
/// 16-bit service classes and service data, in this order, the service data
/// starting with the scale's mark and long enough for every field.
pub open spec fn is_scale_broadcast(elements: Seq<AdElement>) -> bool {
    &&& elements.len() == 3
    &&& elements[0].adtype == Adtype::Flags
    &&& elements[1].adtype == Adtype::IncompleteListOf16bitServiceClassUUIDs
    &&& elements[2].adtype == Adtype::ServiceData
    &&& elements[2].data.len() >= SERVICE_DATA_LEN
    &&& elements[2].data[0] == 0x1b
    &&& elements[2].data[1] == 0x18
}

/// The reading that the service data `data` holds, heard at `now`.
pub open spec fn reading_of(address: Seq<char>, data: Seq<u8>, now: i64) -> Reading {
    Reading {
        address,
        created_at: now,
        updated_at: now,
        status_updated_at: now,
        announced: false,
        announcable: false,
        weight: le_u16(data, 13) as u16,
        impedance: le_u16(data, 11) as u32,
        statusbits0: data[2],
        statusbits1: data[3],
        got_impedance: data[3] & 0b0000_0010 != 0,
        got_weight: data[3] & 0b0000_0100 != 0,
        weight_stabilized: data[3] & 0b0010_0000 != 0,
        impedance_stabilized: data[3] & 0b1000_0000 != 0,
    }
}

/// The reading in a broadcast heard at `now`, or `None` where the elements
/// are not those of a broadcast of the scale.
pub open spec fn parsed(address: Seq<char>, elements: Seq<AdElement>, now: i64) -> Option<
    Reading,
> {
    if is_scale_broadcast(elements) {
        Some(reading_of(address, elements[2].data, now))
    } else {
        None
    }
}

/// A flag that was set in `prev` is no longer set in `incoming`.
pub open spec fn regressed(prev: Reading, incoming: Reading) -> bool {
    prev.weight_stabilized && !incoming.weight_stabilized || prev.impedance_stabilized
        && !incoming.impedance_stabilized
}

/// The broadcast `incoming`, heard at `now`, starts a new measurement: the
/// scale was silent for too long, or a flag went back.
pub open spec fn starts_new_cycle(prev: Reading, incoming: Reading, now: i64) -> bool {
    elapsed_exceeds(prev.updated_at, now, STALE_AFTER_SECONDS) || regressed(prev, incoming)
}

/// The reading `prev` after the broadcast `incoming` was heard at `now`.
pub open spec fn updated(prev: Reading, incoming: Reading, now: i64) -> Reading {
    let announced = prev.announced && !starts_new_cycle(prev, incoming, now);
    let status_updated_at = if prev.statusbits0 != incoming.statusbits0 || prev.statusbits1
        != incoming.statusbits1 {
        now
    } else {
        prev.status_updated_at
    };
    let announcable = if !announced {
        incoming.weight_stabilized && incoming.impedance_stabilized
    } else if prev.weight_stabilized {
        elapsed_exceeds(status_updated_at, now, STALE_AFTER_SECONDS)
    } else {
        prev.announcable
    };
    Reading {
        address: prev.address,
        created_at: prev.created_at,
        updated_at: now,
        status_updated_at,
        announced,
        announcable,
        weight: incoming.weight,
        impedance: incoming.impedance,
        statusbits0: incoming.statusbits0,
        statusbits1: incoming.statusbits1,
        got_impedance: incoming.got_impedance,
        got_weight: incoming.got_weight,
        weight_stabilized: incoming.weight_stabilized,
        impedance_stabilized: incoming.impedance_stabilized,
    }
}

/// A reading is due for its announcement.
pub open spec fn is_due(reading: Reading) -> bool {
    reading.announcable && !reading.announced
}

/// What is announced of a reading.
pub open spec fn announcement_of(reading: Reading) -> Announcement {
    Announcement {
        source: "hat-mibcs"@,
        address: reading.address,
        datetime: reading.created_at,
        weight: if reading.got_weight {
            Some(reading.weight)
        } else {
            None
        },
        impedance: if reading.got_impedance {
            Some(reading.impedance)
        } else {
            None
        },
    }
}

impl WeightData {
    /// Reads the elements of a broadcast heard at `now`.
    pub fn parse_at(address: &str, ads: &[AdvertisingData], now: i64) -> (r: Option<WeightData>)
        ensures
            match r {
                Some(w) => parsed(address@, elements_of(ads@), now) == Some(w@),
                None => !is_scale_broadcast(elements_of(ads@)),
            },
    {
        if ads.len() != 3 {
            return None;
        }
        proof {
            assert(elements_of(ads@)[0] == ads@[0]@);
            assert(elements_of(ads@)[1] == ads@[1]@);
            assert(elements_of(ads@)[2] == ads@[2]@);
        }
        if ads[0].adtype != Adtype::Flags {
            return None;
        }
        if ads[1].adtype != Adtype::IncompleteListOf16bitServiceClassUUIDs {
            return None;
        }
        if ads[2].adtype != Adtype::ServiceData {
            return None;
        }
        let data = ads[2].data;
        if data.len() < SERVICE_DATA_LEN {
            return None;
        }
        if data[0] != 0x1b || data[1] != 0x18 {
            return None;
        }
        let weight_low: u16 = data[13] as u16;
        let weight_high: u16 = data[14] as u16;
        let weight: u16 = weight_high * 256 + weight_low;

        let impedance_low: u32 = data[11] as u32;
        let impedance_high: u32 = data[12] as u32;
        let impedance: u32 = impedance_high * 256 + impedance_low;

        let statusbits0: u8 = data[2];
        let statusbits1: u8 = data[3];

        Some(
            WeightData {
                address: address.to_owned(),
                created_at: now,
                updated_at: now,
                status_updated_at: now,
                announced: false,
                announcable: false,
                weight,
                impedance,
                statusbits0,
                statusbits1,
                got_impedance: statusbits1 & 0b0000_0010 != 0,
                got_weight: statusbits1 & 0b0000_0100 != 0,
                weight_stabilized: statusbits1 & 0b0010_0000 != 0,
                impedance_stabilized: statusbits1 & 0b1000_0000 != 0,
            },
        )
    }

    /// Reads the elements of a broadcast heard just now. The reading is the
    /// one that `parse_at` gives for the time the clock showed, which is the
    /// reading's `created_at`.
    pub fn parse(address: &str, ads: &[AdvertisingData]) -> (r: Option<WeightData>)
        ensures
            match r {
                Some(w) => parsed(address@, elements_of(ads@), w.created_at) == Some(w@),
                None => !is_scale_broadcast(elements_of(ads@)),
            },
    {
        WeightData::parse_at(address, ads, now_millis())
    }

    /// Takes in a later broadcast of the same scale, heard at `now`.
    pub fn update_at(&mut self, weight_data: &WeightData, now: i64)
        requires
            old(self).address@ == weight_data.address@,
        ensures
            final(self)@ == updated(old(self)@, weight_data@, now),
    {
        // If nothing was heard of the scale for a while, or a flag that was
        // set is set no longer, this is a new measurement.
        if has_elapsed(self.updated_at, now, STALE_AFTER_SECONDS) {
            self.announcable = false;
            self.announced = false;
        }
        if self.weight_stabilized && !weight_data.weight_stabilized || self.impedance_stabilized
            && !weight_data.impedance_stabilized {
            self.announcable = false;
            self.announced = false;
        }
        self.updated_at = now;

        if self.statusbits0 != weight_data.statusbits0 || self.statusbits1
            != weight_data.statusbits1 {
            self.status_updated_at = now;
        }
        if !self.announced {
            self.announcable = weight_data.weight_stabilized && weight_data.impedance_stabilized;
        } else if self.weight_stabilized {
            self.announcable = has_elapsed(self.status_updated_at, now, STALE_AFTER_SECONDS);
        }
        self.weight = weight_data.weight;
        self.impedance = weight_data.impedance;
        self.statusbits0 = weight_data.statusbits0;
        self.statusbits1 = weight_data.statusbits1;
        self.got_impedance = weight_data.got_impedance;
        self.got_weight = weight_data.got_weight;
        self.weight_stabilized = weight_data.weight_stabilized;
        self.impedance_stabilized = weight_data.impedance_stabilized;
    }

    /// Takes in a later broadcast of the same scale, heard just now. The
    /// reading changes as `update_at` says for the time the clock showed,
    /// which is the new `updated_at`.
    pub fn update(&mut self, weight_data: &WeightData)
        requires
            old(self).address@ == weight_data.address@,
        ensures
            final(self)@ == updated(old(self)@, weight_data@, final(self).updated_at),
    {
        self.update_at(weight_data, now_millis());
    }

    /// Tells whether the reading is due for its announcement.
    pub fn due(&self) -> (r: bool)
        ensures
            r == is_due(self@),
    {
        self.announcable && !self.announced
    }

    /// Makes the announcement of this reading and marks it as announced.
    pub fn announcement(&mut self) -> (r: WeightDataAnnouncement)
        ensures
            r@ == announcement_of(old(self)@),
            final(self)@ == (Reading { announced: true, ..old(self)@ }),
    {
        let data = WeightDataAnnouncement {
            source: "hat-mibcs".to_owned(),
            address: self.address.clone(),
            datetime: self.created_at,
            weight: if self.got_weight {
                Some(self.weight)
            } else {
                None
            },
            impedance: if self.got_impedance {
                Some(self.impedance)
            } else {
                None
            },
        };
        self.announced = true;
        data
    }

    /// The weight in grams.
    pub fn weight_grams(&self) -> (r: u32)
        ensures
            r == self.weight * 5,
    {
        self.weight as u32 * GRAMS_PER_UNIT
    }
}

/// A broadcast that follows more than five seconds of silence starts a new
/// measurement: whatever was announced before, the reading can be announced
/// again, and is due as soon as weight and impedance have settled.
pub proof fn silence_rearms(prev: Reading, incoming: Reading, now: i64)
    requires
        elapsed_exceeds(prev.updated_at, now, STALE_AFTER_SECONDS),
    ensures
        !updated(prev, incoming, now).announced,
        is_due(updated(prev, incoming, now)) == (incoming.weight_stabilized
            && incoming.impedance_stabilized),
{
}

/// A broadcast in which a flag went back starts a new measurement, of which
/// nothing is due yet.
pub proof fn regression_resets(prev: Reading, incoming: Reading, now: i64)
    requires
        regressed(prev, incoming),
    ensures
        !updated(prev, incoming, now).announced,
        !updated(prev, incoming, now).announcable,
{
}

/// Within a measurement an announced reading stays announced, so that
/// nothing further is due.
pub proof fn announced_stays_announced(prev: Reading, incoming: Reading, now: i64)
    requires
        prev.announced,
        !starts_new_cycle(prev, incoming, now),
    ensures
        updated(prev, incoming, now).announced,
        !is_due(updated(prev, incoming, now)),
{
}

/// A broadcast never marks a reading as announced: only an announcement
/// does. A reading that is marked was announced in its measurement.
pub proof fn update_never_announces(prev: Reading, incoming: Reading, now: i64)
    ensures
        updated(prev, incoming, now).announced ==> prev.announced && !starts_new_cycle(
            prev,
            incoming,
            now,
        ),
{
}

/// A reading that was not announced becomes due exactly when the broadcast
/// shows weight and impedance settled.
pub proof fn settled_reading_is_due(prev: Reading, incoming: Reading, now: i64)
    requires
        !prev.announced,
    ensures
        is_due(updated(prev, incoming, now)) == (incoming.weight_stabilized
            && incoming.impedance_stabilized),
{
}

/// While the clock does not go back, the time of the latest broadcast does
/// not go back either, and the time of creation never changes.
pub proof fn update_times_do_not_go_back(prev: Reading, incoming: Reading, now: i64)
    requires
        prev.updated_at <= now,
    ensures
        prev.updated_at <= updated(prev, incoming, now).updated_at,
        updated(prev, incoming, now).created_at == prev.created_at,
{
}

} // verus!
