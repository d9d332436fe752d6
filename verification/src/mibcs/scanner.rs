//! The scan for the scale: every broadcast heard is taken in, and a
//! measurement is announced once.

use super::cli::Cli;
use super::weight_data::{
    announcement_of, is_due, parsed, updated, Announcement, Reading, WeightData,
    WeightDataAnnouncement,
};
use crate::bluetooth::advertising_data::{decoded, parse_ad};
use crate::btlepasvscan::Data;
use crate::clock::now_millis;
use crate::str_map::StrMap;
use vstd::prelude::*;

verus! {

/// The readings of the scales heard so far, one for each address.
pub struct MIBCSScanner {
    cli: Cli,
    readings: StrMap<WeightData>,
}

/// The readings by address, and what is announced, after a broadcast of
/// `bytes` from `address` was heard at `now`. A broadcast that is malformed
/// or not of the scale changes nothing. The first broadcast of an address
/// creates its reading; a later one updates it, and the reading is
/// announced where it is then due.
pub open spec fn handled(
    readings: Map<Seq<char>, Reading>,
    address: Seq<char>,
    bytes: Seq<u8>,
    now: i64,
) -> (Map<Seq<char>, Reading>, Option<Announcement>) {
    match decoded(bytes) {
        None => (readings, None),
        Some(elements) => match parsed(address, elements, now) {
            None => (readings, None),
            Some(incoming) => if readings.contains_key(address) {
                let next = updated(readings[address], incoming, now);
                if is_due(next) {
                    (
                        readings.insert(address, Reading { announced: true, ..next }),
                        Some(announcement_of(next)),
                    )
                } else {
                    (readings.insert(address, next), None)
                }
            } else {
                (readings.insert(address, incoming), None)
            },
        },
    }
}

/// An announcement that was made or not, as a mathematical value.
pub open spec fn announcement_view(made: Option<WeightDataAnnouncement>) -> Option<
    Announcement,
> {
    match made {
        Some(a) => Some(a@),
        None => None,
    }
}

/// The scan is over: an announcement was awaited and made, the scan was
/// interrupted, or it went on for longer than it may.
pub open spec fn scan_is_over(
    cli: Cli,
    announced: bool,
    interrupted: bool,
    elapsed_secs: u64,
) -> bool {
    announced && cli.until_data || interrupted || cli.duration > 0 && elapsed_secs > cli.duration
}

impl MIBCSScanner {
    #[verifier::type_invariant]
    spec fn keyed_by_address(&self) -> bool {
        forall|k: Seq<char>| #[trigger]
            self.readings@.contains_key(k) ==> self.readings@[k].address@ == k
    }

    /// The readings by address.
    pub closed spec fn view(&self) -> Map<Seq<char>, Reading> {
        self.readings@.map_values(|w: WeightData| w@)
    }

    /// The options that the scan was started with.
    pub closed spec fn options(&self) -> Cli {
        self.cli
    }

    /// A scan that has heard nothing yet.
    pub fn new(cli: &Cli) -> (r: MIBCSScanner)
        ensures
            r@ == Map::<Seq<char>, Reading>::empty(),
            r.options() == *cli,
    {
        let r = MIBCSScanner { cli: *cli, readings: StrMap::new() };
        assert(r@ =~= Map::<Seq<char>, Reading>::empty());
        r
    }

    /// Takes in a broadcast heard at `now` and returns the announcement if
    /// one is due.
    pub fn handle_data_at(&mut self, data: &Data, now: i64) -> (r: Option<WeightDataAnnouncement>)
        ensures
            (final(self)@, announcement_view(r)) == handled(
                old(self)@,
                data.address@,
                data.buffer@,
                now,
            ),
            final(self).options() == old(self).options(),
    {
        proof {
            use_type_invariant(&*self);
        }
        let address = data.address;
        let buffer = data.buffer;
        let ads = match parse_ad(buffer) {
            Some(ads) => ads,
            None => {
                return None;
            },
        };
        let scale_data = match WeightData::parse_at(address, ads.as_slice(), now) {
            Some(scale_data) => scale_data,
            None => {
                return None;
            },
        };
        let mut readings: StrMap<WeightData> = StrMap::new();
        core::mem::swap(&mut self.readings, &mut readings);
        let result = match readings.remove(address) {
            Some(mut previous) => {
                previous.update_at(&scale_data, now);
                let made = if previous.due() {
                    Some(previous.announcement())
                } else {
                    None
                };
                readings.insert(address.to_owned(), previous);
                made
            },
            None => {
                readings.insert(address.to_owned(), scale_data);
                None
            },
        };
        proof {
            let after = readings@.map_values(|w: WeightData| w@);
            let expected = handled(old(self)@, data.address@, data.buffer@, now);
            assert(after =~= expected.0);
        }
        self.readings = readings;
        result
    }

    /// Takes in a broadcast heard just now, as `handle_data_at` does for
    /// the time the clock showed.
    pub fn handle_data(&mut self, data: &Data) -> (r: Option<WeightDataAnnouncement>)
        ensures
            exists|now: i64|
                (final(self)@, announcement_view(r)) == #[trigger] handled(
                    old(self)@,
                    data.address@,
                    data.buffer@,
                    now,
                ),
            final(self).options() == old(self).options(),
    {
        let now: i64 = now_millis();
        self.handle_data_at(data, now)
    }

    /// Tells whether the scan is over, after a broadcast was handled:
    /// `announced` says whether that made an announcement, `interrupted`
    /// whether the user asked to stop, `elapsed_secs` how long the scan has
    /// been going on.
    pub fn done(&self, announced: bool, interrupted: bool, elapsed_secs: u64) -> (r: bool)
        ensures
            r == scan_is_over(self.options(), announced, interrupted, elapsed_secs),
    {
        announced && self.cli.until_data || interrupted || self.cli.duration > 0 && elapsed_secs
            > self.cli.duration
    }
}

/// A scale whose reading was announced is not announced again by a
/// broadcast of the same measurement.
pub proof fn one_announcement_per_cycle(
    readings: Map<Seq<char>, Reading>,
    address: Seq<char>,
    bytes: Seq<u8>,
    now: i64,
)
    requires
        readings.contains_key(address),
        readings[address].announced,
        decoded(bytes) is Some,
        parsed(address, decoded(bytes).unwrap(), now) is Some,
        !super::weight_data::starts_new_cycle(
            readings[address],
            parsed(address, decoded(bytes).unwrap(), now).unwrap(),
            now,
        ),
    ensures
        handled(readings, address, bytes, now).1 is None,
{
}

/// What was announced is marked as announced: right after an announcement
/// the reading of that address is no longer due.
pub proof fn announcement_is_recorded(
    readings: Map<Seq<char>, Reading>,
    address: Seq<char>,
    bytes: Seq<u8>,
    now: i64,
)
    requires
        handled(readings, address, bytes, now).1 is Some,
    ensures
        handled(readings, address, bytes, now).0.contains_key(address),
        handled(readings, address, bytes, now).0[address].announced,
        !is_due(handled(readings, address, bytes, now).0[address]),
{
}

/// A reading is marked as announced only by an announcement: after a
/// broadcast it is marked if its announcement was made just now, or was
/// made before in the same measurement.
pub proof fn marked_reading_was_announced(
    readings: Map<Seq<char>, Reading>,
    address: Seq<char>,
    bytes: Seq<u8>,
    now: i64,
)
    requires
        handled(readings, address, bytes, now).0.contains_key(address),
        handled(readings, address, bytes, now).0[address].announced,
    ensures
        handled(readings, address, bytes, now).1 is Some || (readings.contains_key(address)
            && readings[address].announced),
{
}

/// A broadcast changes the reading of its own address at most.
pub proof fn other_addresses_are_untouched(
    readings: Map<Seq<char>, Reading>,
    address: Seq<char>,
    bytes: Seq<u8>,
    now: i64,
    other: Seq<char>,
)
    requires
        other != address,
    ensures
        handled(readings, address, bytes, now).0.contains_key(other) == readings.contains_key(
            other,
        ),
        readings.contains_key(other) ==> handled(readings, address, bytes, now).0[other]
            == readings[other],
{
}

} // verus!
