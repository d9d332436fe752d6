//! The scan for the scale through the broker: the changes of a device's
//! properties are searched for the service data of the scale, and the
//! latest measurement is written out when it is complete or has waited
//! long enough.

use super::cli::Cli;
use super::dbus_weight_data::{decoded, DecodeError, Measurement, WeightData};
use crate::clock::{elapsed_exceeds, has_elapsed};
use crate::dbus_common::utils::{PropertyBag, DEVICE_INTERFACE};
use crate::dbus_common::value::Value;
use crate::text::str_eq;
use vstd::prelude::*;

verus! {

/// The service of a body-composition scale.
pub const BODY_COMPOSITION_UUID: &'static str = "0000181b-0000-1000-8000-00805f9b34fb";

/// Seconds after which a measurement is written out though it is not
/// complete.
pub const FLUSH_AFTER_SECONDS: u32 = 30;

/// The interface whose signal tells of changed properties.
pub const PROPERTIES_INTERFACE: &'static str = "org.freedesktop.DBus.Properties";

/// The signal that tells of changed properties.
pub const PROPERTIES_CHANGED: &'static str = "PropertiesChanged";

/// What a turn of the scan comes to.
#[derive(Debug)]
pub struct Tick {
    /// The measurement to write out, if one is due.
    pub emit: Option<WeightData>,
    /// Whether the scan is over.
    pub stop: bool,
}

/// The scan: its options, when it began, and the measurement that waits to
/// be written out.
#[derive(Debug)]
pub struct Scanner {
    cli: Cli,
    started_at: i64,
    last_weight_data: Option<WeightData>,
    last_weight_data_seen: i64,
}

/// The measurement that waits after `reading` came in: a reading with a
/// weight takes the place of the one before, any other is passed over.
pub open spec fn kept(pending: Option<WeightData>, reading: Option<WeightData>) -> Option<
    WeightData,
> {
    match reading {
        Some(w) => if w.weight is Some {
            Some(w)
        } else {
            pending
        },
        None => pending,
    }
}

/// A reading that is kept was seen at `now`.
pub open spec fn seen_at(last_seen: i64, reading: Option<WeightData>, now: i64) -> i64 {
    match reading {
        Some(w) => if w.weight is Some {
            now
        } else {
            last_seen
        },
        None => last_seen,
    }
}

/// The waiting measurement is written out: it is complete, or it has waited
/// for more than half a minute.
pub open spec fn is_flushed(pending: Option<WeightData>, last_seen: i64, now: i64) -> bool {
    match pending {
        Some(w) => w.impedance is Some || elapsed_exceeds(last_seen, now, FLUSH_AFTER_SECONDS),
        None => false,
    }
}

/// The scan has gone on for longer than it may.
pub open spec fn is_overdue(cli: Cli, started_at: i64, now: i64) -> bool {
    cli.duration > 0 && crate::clock::whole_seconds_between(started_at, now) > cli.duration
}

/// The key and the value are the service data of the scale: the key names
/// the scale's service, the value holds bytes.
pub open spec fn is_body_composition(key: Value, value: Value) -> bool {
    key.is_str(BODY_COMPOSITION_UUID@) && value is Bytes
}

/// What an entry of a device's service data gives: the measurement that
/// the bytes hold where they are those of the scale, nothing else.
pub open spec fn body_composition_of(
    key: Value,
    value: Value,
    btaddr: Seq<char>,
    now: i64,
) -> Result<Option<Measurement>, DecodeError> {
    if is_body_composition(key, value) {
        match decoded(value->Bytes_0@, btaddr, now) {
            Ok(m) => Ok(Some(m)),
            Err(e) => Err(e),
        }
    } else {
        Ok(None)
    }
}

/// What the service data of a device give: only the first entry is looked
/// at.
pub open spec fn service_data_values_of(value: Value, btaddr: Seq<char>, now: i64) -> Result<
    Option<Measurement>,
    DecodeError,
> {
    match value {
        Value::Dict(entries) => if entries@.len() > 0 {
            body_composition_of(entries@[0].0, entries@[0].1, btaddr, now)
        } else {
            Ok(None)
        },
        _ => Ok(None),
    }
}

/// What a changed property gives: the service data are searched, any other
/// property gives nothing.
pub open spec fn service_data_of(key: Value, value: Value, btaddr: Seq<char>, now: i64) -> Result<
    Option<Measurement>,
    DecodeError,
> {
    if key.is_str("ServiceData"@) {
        service_data_values_of(value, btaddr, now)
    } else {
        Ok(None)
    }
}

/// The properties are those of a body-composition scale with a textual
/// address.
pub open spec fn is_scale(properties: Map<Seq<char>, Value>) -> bool {
    &&& properties.contains_key("Address"@)
    &&& properties.contains_key("Name"@)
    &&& properties.contains_key("UUIDs"@)
    &&& properties["UUIDs"@].holds_str(BODY_COMPOSITION_UUID@)
    &&& properties["Address"@] is Str
}

/// What the changed properties of a device give: for a scale the first of
/// them is searched, for any other device nothing.
pub open spec fn changed_properties_of(
    properties: Map<Seq<char>, Value>,
    changed: Seq<(Value, Value)>,
    now: i64,
) -> Result<Option<Measurement>, DecodeError> {
    if is_scale(properties) && changed.len() > 0 {
        service_data_of(changed[0].0, changed[0].1, properties["Address"@]->Str_0@, now)
    } else {
        Ok(None)
    }
}

/// A measurement that was found or not, or the failure, as a mathematical
/// value.
pub open spec fn found_view(r: Result<Option<WeightData>, DecodeError>) -> Result<
    Option<Measurement>,
    DecodeError,
> {
    match r {
        Ok(Some(w)) => Ok(Some(w@)),
        Ok(None) => Ok(None),
        Err(e) => Err(e),
    }
}

/// The signal tells of changed properties of a device: it is a signal
/// `PropertiesChanged` of the properties interface from some object, and
/// its first item names the device interface.
pub open spec fn is_device_change(
    is_signal: bool,
    has_path: bool,
    interface: Option<Seq<char>>,
    member: Option<Seq<char>>,
    items: Seq<Value>,
) -> bool {
    &&& is_signal
    &&& has_path
    &&& interface == Some(PROPERTIES_INTERFACE@)
    &&& member == Some(PROPERTIES_CHANGED@)
    &&& items.len() >= 2
    &&& items[0].is_str(DEVICE_INTERFACE@)
    &&& items[1] is Dict
}

/// The characters of a string that may be missing.
pub open spec fn text_view(text: Option<&str>) -> Option<Seq<char>> {
    match text {
        Some(t) => Some(t@),
        None => None,
    }
}

impl Scanner {
    /// The options that the scan was started with.
    pub closed spec fn options(&self) -> Cli {
        self.cli
    }

    /// When the scan began.
    pub closed spec fn started_at(&self) -> i64 {
        self.started_at
    }

    /// The measurement that waits to be written out.
    pub closed spec fn pending(&self) -> Option<WeightData> {
        self.last_weight_data
    }

    /// When the waiting measurement came in.
    pub closed spec fn last_seen(&self) -> i64 {
        self.last_weight_data_seen
    }

    /// A scan that begins at `now`.
    pub fn new(cli: &Cli, now: i64) -> (r: Scanner)
        ensures
            r.options() == *cli,
            r.started_at() == now,
            r.pending() is None,
            r.last_seen() == now,
    {
        Scanner { cli: *cli, started_at: now, last_weight_data: None, last_weight_data_seen: now }
    }

    /// One turn of the scan at `now`, after `reading` was found in a
    /// signal or nothing was. A reading with a weight is kept; the kept
    /// measurement is written out when it is complete or has waited for
    /// more than half a minute. The scan is over when a measurement was
    /// written out and only one was asked for, or when it has gone on for
    /// longer than it may.
    pub fn listen_for_signals(&mut self, reading: Option<WeightData>, now: i64) -> (r: Tick)
        ensures
            final(self).options() == old(self).options(),
            final(self).started_at() == old(self).started_at(),
            final(self).last_seen() == seen_at(old(self).last_seen(), reading, now),
            ({
                let waiting = kept(old(self).pending(), reading);
                let flushed = is_flushed(waiting, final(self).last_seen(), now);
                &&& r.emit == (if flushed {
                    waiting
                } else {
                    None
                })
                &&& final(self).pending() == (if flushed {
                    None
                } else {
                    waiting
                })
                &&& r.stop == (flushed && old(self).options().until_data || is_overdue(
                    old(self).options(),
                    old(self).started_at(),
                    now,
                ))
            }),
    {
        match reading {
            Some(weight_data) => {
                if weight_data.weight.is_some() {
                    self.last_weight_data = Some(weight_data);
                    self.last_weight_data_seen = now;
                }
            },
            None => {},
        }
        let flushed = match &self.last_weight_data {
            Some(weight_data) => weight_data.done() || has_elapsed(
                self.last_weight_data_seen,
                now,
                FLUSH_AFTER_SECONDS,
            ),
            None => false,
        };
        let emit = if flushed {
            self.last_weight_data.take()
        } else {
            None
        };
        let overdue = self.cli.duration > 0 && now >= self.started_at && (now as i128
            - self.started_at as i128) / 1000 > self.cli.duration as i128;
        Tick { emit, stop: flushed && self.cli.until_data || overdue }
    }

    /// Tells whether a signal tells of changed properties of a device; the
    /// changed properties are its second item.
    pub fn handle_signal(
        is_signal: bool,
        path: Option<&str>,
        interface: Option<&str>,
        member: Option<&str>,
        items: &Vec<Value>,
    ) -> (r: bool)
        ensures
            r == is_device_change(
                is_signal,
                path is Some,
                text_view(interface),
                text_view(member),
                items@,
            ),
    {
        if !is_signal || path.is_none() {
            return false;
        }
        let interface_fits = match interface {
            Some(i) => str_eq(i, PROPERTIES_INTERFACE),
            None => false,
        };
        let member_fits = match member {
            Some(m) => str_eq(m, PROPERTIES_CHANGED),
            None => false,
        };
        if !interface_fits || !member_fits {
            return false;
        }
        if items.len() < 2 {
            return false;
        }
        items[0].equals_str(DEVICE_INTERFACE) && items[1].as_dict().is_some()
    }

    /// Searches the changed properties of the device with the properties
    /// `properties` for a measurement of the scale, heard at `now`.
    pub fn inquiry_changed_properties(
        properties: &PropertyBag,
        changed: &Vec<(Value, Value)>,
        now: i64,
    ) -> (r: Result<Option<WeightData>, DecodeError>)
        ensures
            found_view(r) == changed_properties_of(properties@, changed@, now),
    {
        let btaddr = match properties.get("Address") {
            Some(btaddr) => btaddr,
            None => {
                return Ok(None);
            },
        };
        if !properties.contains_key("Name") {
            return Ok(None);
        }
        let uuids = match properties.get("UUIDs") {
            Some(uuids) => uuids,
            None => {
                return Ok(None);
            },
        };
        if !uuids.contains_str(BODY_COMPOSITION_UUID) {
            return Ok(None);
        }
        if changed.len() == 0 {
            return Ok(None);
        }
        match btaddr.as_str() {
            Some(btaddr_str) => Scanner::inquiry_service_data(
                &changed[0].0,
                &changed[0].1,
                btaddr_str,
                now,
            ),
            None => Ok(None),
        }
    }

    /// Searches the service data of a device for a measurement of the
    /// scale.
    pub fn inquiry_service_data_values(value: &Value, btaddr: &str, now: i64) -> (r: Result<
        Option<WeightData>,
        DecodeError,
    >)
        ensures
            found_view(r) == service_data_values_of(*value, btaddr@, now),
    {
        match value.as_dict() {
            Some(entries) => {
                if entries.len() > 0 {
                    Scanner::extract_body_composition(&entries[0].0, &entries[0].1, btaddr, now)
                } else {
                    Ok(None)
                }
            },
            None => Ok(None),
        }
    }

    /// Searches a changed property for a measurement of the scale.
    pub fn inquiry_service_data(key: &Value, value: &Value, btaddr: &str, now: i64) -> (r: Result<
        Option<WeightData>,
        DecodeError,
    >)
        ensures
            found_view(r) == service_data_of(*key, *value, btaddr@, now),
    {
        if key.equals_str("ServiceData") {
            Scanner::inquiry_service_data_values(value, btaddr, now)
        } else {
            Ok(None)
        }
    }

    /// Decodes an entry of a device's service data if it is that of the
    /// scale.
    pub fn extract_body_composition(key: &Value, value: &Value, btaddr: &str, now: i64) -> (r:
        Result<Option<WeightData>, DecodeError>)
        ensures
            found_view(r) == body_composition_of(*key, *value, btaddr@, now),
    {
        if !key.equals_str(BODY_COMPOSITION_UUID) {
            return Ok(None);
        }
        match value.as_bytes() {
            Some(bytes) => {
                match WeightData::decode_at(bytes.as_slice(), btaddr, now) {
                    Ok(w) => Ok(Some(w)),
                    Err(e) => Err(e),
                }
            },
            None => Ok(None),
        }
    }
}

/// A complete measurement is written out in the turn in which it comes in.
pub proof fn complete_measurement_is_flushed(
    pending: Option<WeightData>,
    reading: WeightData,
    last_seen: i64,
    now: i64,
)
    requires
        reading.weight is Some,
        reading.impedance is Some,
    ensures
        kept(pending, Some(reading)) == Some(reading),
        is_flushed(
            kept(pending, Some(reading)),
            seen_at(last_seen, Some(reading), now),
            now,
        ),
{
}

/// A reading without weight is passed over: what waits goes on waiting.
pub proof fn empty_reading_is_ignored(
    pending: Option<WeightData>,
    reading: WeightData,
    last_seen: i64,
    now: i64,
)
    requires
        reading.weight is None,
    ensures
        kept(pending, Some(reading)) == pending,
        seen_at(last_seen, Some(reading), now) == last_seen,
{
}

} // verus!
