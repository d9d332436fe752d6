//! The plant sensor: its characteristics, its commands, and the payloads it
//! answers with.

use super::dbus_bluez::{
    kind_of, name_view, BluezManager, DBusFault, TypedDbusError,
    BLUEZ_GATT_CHARACTERISTIC_INTERFACE,
};
use crate::dbus_common::utils::{has_property, property_is, DBusObject, ObjectView, Query};
use crate::text::{append_decimal, decimal};
use crate::wire::{le_u16, le_u24, le_u32, read_le_u16, read_le_u32, write_le_u16};
use vstd::prelude::*;
use vstd::slice::{slice_subrange, slice_to_vec};
use vstd::utf8::{decode_utf8, valid_utf8};

verus! {

pub const XIAOMI_MIFLORA_SERVICE_UUID: &'static str = "0000fe95-0000-1000-8000-00805f9b34fb";

pub const FIRMWARE_CHARACTERISTIC_UUID: &'static str = "00001a02-0000-1000-8000-00805f9b34fb";

pub const DEVICE_MODE_CHARACTERISTIC_UUID: &'static str = "00001a00-0000-1000-8000-00805f9b34fb";

pub const DEVICE_DATA_CHARACTERISTIC_UUID: &'static str = "00001a01-0000-1000-8000-00805f9b34fb";

pub const DEVICE_TIME_CHARACTERISTIC_UUID: &'static str = "00001a12-0000-1000-8000-00805f9b34fb";

pub const HISTORY_MODE_CHARACTERISTIC_UUID: &'static str = "00001a10-0000-1000-8000-00805f9b34fb";

pub const HISTORY_DATA_CHARACTERISTIC_UUID: &'static str = "00001a11-0000-1000-8000-00805f9b34fb";

/// The length of a history record.
pub const HISTORY_RECORD_LEN: usize = 16;

/// The length of a realtime readout, as far as it is understood.
pub const REALTIME_DATA_LEN: usize = 10;

/// The length of the firmware readout: battery level, a separator and the
/// version in five characters.
pub const FIRMWARE_DATA_LEN: usize = 7;

/// Why a payload could not be decoded.
#[derive(Clone, Copy, Debug, PartialEq, Eq, Structural)]
pub enum InvalidDataCause {
    /// The payload ends before the field does.
    UnexpectedEof,
    /// Text was expected and the bytes are no UTF-8.
    InvalidUtf8,
}

/// What can go wrong with the sensor.
#[derive(Debug)]
#[allow(inconsistent_fields)]
pub enum Error {
    GATTAttributeNotFound { name: String, uuid: String },
    InvalidData { cause: InvalidDataCause },
    NotConnected,
    ModeConfirmError,
    ErrorConnecting { cause: TypedDbusError },
    ErrorDisconnecting { cause: TypedDbusError },
    ErrorReadingData { name: String, uuid: String, path: String, cause: TypedDbusError },
    ErrorWritingData { name: String, uuid: String, path: String, cause: TypedDbusError },
    DBusError { cause: TypedDbusError },
    ThisShouldNeverHappend,
}

/// The modes of the sensor itself.
#[derive(Clone, Copy, Debug, PartialEq, Eq, Structural)]
pub enum MifloraDeviceMode {
    Realtime,
    Blink,
}

/// The modes of the sensor's history store.
#[derive(Clone, Copy, Debug, PartialEq, Eq, Structural)]
pub enum MifloraDeviceHistoryMode {
    Init,
    Clear,
    ReadRecord(u16),
}

/// What the sensor measures now. The temperature is in tenths of a degree
/// Celsius.
#[derive(Clone, Copy, Debug, PartialEq, Eq, Structural)]
pub struct RealtimeReadings {
    pub temperature: u16,
    pub lux: u32,
    pub moisture: u8,
    pub conductivity: u16,
}

/// What the sensor measured at `epoch` seconds after it was started. The
/// temperature is in tenths of a degree Celsius.
#[derive(Clone, Copy, Debug, PartialEq, Eq, Structural)]
pub struct HistoryReadings {
    pub record_number: u16,
    pub epoch: u32,
    pub temperature: u16,
    pub lux: u32,
    pub moisture: u8,
    pub conductivity: u16,
}

/// The bytes that put the sensor into a mode.
pub open spec fn device_mode_bytes(mode: MifloraDeviceMode) -> Seq<u8> {
    match mode {
        MifloraDeviceMode::Realtime => seq![0xa0u8, 0x1fu8],
        MifloraDeviceMode::Blink => seq![0xfdu8, 0xffu8],
    }
}

/// The bytes that put the history store into a mode. The number of a record
/// follows its command with the low byte first.
pub open spec fn history_mode_bytes(mode: MifloraDeviceHistoryMode) -> Seq<u8> {
    match mode {
        MifloraDeviceHistoryMode::Init => seq![0xa0u8, 0x00u8, 0x00u8],
        MifloraDeviceHistoryMode::Clear => seq![0xa2u8, 0x00u8, 0x00u8],
        MifloraDeviceHistoryMode::ReadRecord(idx) => seq![
            0xa1u8,
            (idx % 256) as u8,
            (idx / 256) as u8,
        ],
    }
}

/// How a change of the sensor's mode is called in an error.
pub open spec fn device_mode_name(mode: MifloraDeviceMode) -> Seq<char> {
    match mode {
        MifloraDeviceMode::Realtime => "device mode -> realtime"@,
        MifloraDeviceMode::Blink => "device mode -> blink"@,
    }
}

/// How a change of the history store's mode is called in an error.
pub open spec fn history_mode_name(mode: MifloraDeviceHistoryMode) -> Seq<char> {
    match mode {
        MifloraDeviceHistoryMode::Init => "history mode -> init"@,
        MifloraDeviceHistoryMode::Clear => "history mode -> clear"@,
        MifloraDeviceHistoryMode::ReadRecord(idx) => "history mode -> read record "@ + decimal(
            idx as nat,
        ),
    }
}

impl MifloraDeviceMode {
    /// The bytes to write to the mode characteristic.
    pub fn command(&self) -> (r: Vec<u8>)
        ensures
            r@ == device_mode_bytes(*self),
    {
        match self {
            MifloraDeviceMode::Realtime => vec![0xa0, 0x1f],
            MifloraDeviceMode::Blink => vec![0xfd, 0xff],
        }
    }

    /// How the change is called in an error.
    pub fn name(&self) -> (r: String)
        ensures
            r@ == device_mode_name(*self),
    {
        match self {
            MifloraDeviceMode::Realtime => "device mode -> realtime".to_owned(),
            MifloraDeviceMode::Blink => "device mode -> blink".to_owned(),
        }
    }
}

impl MifloraDeviceHistoryMode {
    /// The bytes to write to the history mode characteristic.
    pub fn command(&self) -> (r: Vec<u8>)
        ensures
            r@ == history_mode_bytes(*self),
    {
        match self {
            MifloraDeviceHistoryMode::Init => vec![0xa0, 0x00, 0x00],
            MifloraDeviceHistoryMode::Clear => vec![0xa2, 0x00, 0x00],
            MifloraDeviceHistoryMode::ReadRecord(idx) => {
                let mut cmd: Vec<u8> = vec![0xa1, 0x00, 0x00];
                write_le_u16(&mut cmd, 1, *idx);
                assert(cmd@ =~= history_mode_bytes(*self));
                cmd
            },
        }
    }

    /// How the change is called in an error.
    pub fn name(&self) -> (r: String)
        ensures
            r@ == history_mode_name(*self),
    {
        match self {
            MifloraDeviceHistoryMode::Init => "history mode -> init".to_owned(),
            MifloraDeviceHistoryMode::Clear => "history mode -> clear".to_owned(),
            MifloraDeviceHistoryMode::ReadRecord(idx) => {
                let mut name = "history mode -> read record ".to_owned();
                append_decimal(&mut name, *idx);
                name
            },
        }
    }
}

/// The byte at `i`, or zero past the end.
pub open spec fn byte_or_zero(data: Seq<u8>, i: int) -> u8 {
    if i < data.len() {
        data[i]
    } else {
        0
    }
}

/// The first sixteen bytes, filled up with zeros where the payload is
/// shorter, are all `value`.
pub open spec fn record_is_all(data: Seq<u8>, value: u8) -> bool {
    forall|i: int| 0 <= i < HISTORY_RECORD_LEN ==> byte_or_zero(data, i) == value
}

/// The payload holds no record: the store answers with zeros, or with
/// `0xff` throughout, where it has nothing.
pub open spec fn is_blank_record(data: Seq<u8>) -> bool {
    record_is_all(data, 0x00) || record_is_all(data, 0xff)
}

/// The record in a payload of sixteen bytes or more. Its number is not in
/// the payload and is set to zero.
pub open spec fn history_record_of(data: Seq<u8>) -> HistoryReadings {
    HistoryReadings {
        record_number: 0,
        epoch: le_u32(data, 0) as u32,
        temperature: le_u16(data, 4) as u16,
        lux: le_u24(data, 7) as u32,
        moisture: data[11],
        conductivity: le_u16(data, 12) as u16,
    }
}

/// What a payload of the history store decodes to: nothing for a blank
/// record, a failure for a payload that is too short, else the record.
pub open spec fn history_data_of(data: Seq<u8>) -> Result<
    Option<HistoryReadings>,
    InvalidDataCause,
> {
    if is_blank_record(data) {
        Ok(None)
    } else if data.len() < HISTORY_RECORD_LEN {
        Err(InvalidDataCause::UnexpectedEof)
    } else {
        Ok(Some(history_record_of(data)))
    }
}

/// What a realtime readout decodes to.
pub open spec fn realtime_data_of(data: Seq<u8>) -> Result<RealtimeReadings, InvalidDataCause> {
    if data.len() < REALTIME_DATA_LEN {
        Err(InvalidDataCause::UnexpectedEof)
    } else {
        Ok(
            RealtimeReadings {
                temperature: le_u16(data, 0) as u16,
                lux: le_u32(data, 3) as u32,
                moisture: data[7],
                conductivity: le_u16(data, 8) as u16,
            },
        )
    }
}

/// The decoded value or the failure, as an `Error`.
pub open spec fn as_invalid_data<T>(decoded: Result<T, InvalidDataCause>) -> Result<T, Error> {
    match decoded {
        Ok(value) => Ok(value),
        Err(cause) => Err(Error::InvalidData { cause }),
    }
}

/// Tells whether the first sixteen bytes, filled up with zeros, are all
/// `value`.
fn record_filled_with(data: &[u8], value: u8) -> (r: bool)
    ensures
        r == record_is_all(data@, value),
{
    let mut i: usize = 0;
    while i < HISTORY_RECORD_LEN
        invariant
            i <= HISTORY_RECORD_LEN,
            forall|j: int| 0 <= j < i ==> byte_or_zero(data@, j) == value,
        decreases HISTORY_RECORD_LEN - i,
    {
        let byte: u8 = if i < data.len() {
            data[i]
        } else {
            0
        };
        if byte != value {
            assert(byte_or_zero(data@, i as int) != value);
            return false;
        }
        i = i + 1;
    }
    true
}

/// Decodes a payload of the history store.
pub fn decode_history_data(data: &[u8]) -> (r: Result<Option<HistoryReadings>, Error>)
    ensures
        r == as_invalid_data(history_data_of(data@)),
{
    if record_filled_with(data, 0x00) {
        return Ok(None);
    }
    if record_filled_with(data, 0xff) {
        return Ok(None);
    }
    if data.len() < HISTORY_RECORD_LEN {
        return Err(Error::InvalidData { cause: InvalidDataCause::UnexpectedEof });
    }
    // bytes 0-3: seconds since the sensor was started
    let epoch: u32 = read_le_u32(data, 0);
    // bytes 4-5: temperature in tenths of a degree
    let temperature: u16 = read_le_u16(data, 4);
    // bytes 7-9: brightness in lux
    let lux1: u32 = data[7] as u32;
    let lux2: u32 = data[8] as u32;
    let lux3: u32 = data[9] as u32;
    let lux: u32 = (lux3 * 256 + lux2) * 256 + lux1;
    // byte 11: moisture in percent
    let moisture: u8 = data[11];
    // bytes 12-13: conductivity
    let conductivity: u16 = read_le_u16(data, 12);
    Ok(
        Some(
            HistoryReadings { record_number: 0, epoch, temperature, lux, moisture, conductivity },
        ),
    )
}

/// Decodes a realtime readout.
pub fn decode_realtime_data(data: &[u8]) -> (r: Result<RealtimeReadings, Error>)
    ensures
        r == as_invalid_data(realtime_data_of(data@)),
{
    if data.len() < REALTIME_DATA_LEN {
        return Err(Error::InvalidData { cause: InvalidDataCause::UnexpectedEof });
    }
    let temperature: u16 = read_le_u16(data, 0);
    let lux: u32 = read_le_u32(data, 3);
    let moisture: u8 = data[7];
    let conductivity: u16 = read_le_u16(data, 8);
    Ok(RealtimeReadings { temperature, lux, moisture, conductivity })
}

/// The characteristics of the sensor that the driver uses.
#[derive(Clone, Copy, Debug, PartialEq, Eq, Structural)]
pub enum Attribute {
    Firmware,
    DeviceMode,
    DeviceData,
    DeviceTime,
    HistoryMode,
    HistoryData,
}

impl Attribute {
    /// The UUID by which the characteristic is known.
    pub open spec fn uuid_of(self) -> Seq<char> {
        match self {
            Attribute::Firmware => FIRMWARE_CHARACTERISTIC_UUID@,
            Attribute::DeviceMode => DEVICE_MODE_CHARACTERISTIC_UUID@,
            Attribute::DeviceData => DEVICE_DATA_CHARACTERISTIC_UUID@,
            Attribute::DeviceTime => DEVICE_TIME_CHARACTERISTIC_UUID@,
            Attribute::HistoryMode => HISTORY_MODE_CHARACTERISTIC_UUID@,
            Attribute::HistoryData => HISTORY_DATA_CHARACTERISTIC_UUID@,
        }
    }

    /// How the characteristic is called in an error.
    pub open spec fn label_of(self) -> Seq<char> {
        match self {
            Attribute::Firmware => "Firmware info"@,
            Attribute::DeviceMode => "device mode"@,
            Attribute::DeviceData => "Device Realtime readout"@,
            Attribute::DeviceTime => "Device time"@,
            Attribute::HistoryMode => "history mode"@,
            Attribute::HistoryData => "history data"@,
        }
    }

    /// The UUID by which the characteristic is known.
    pub fn uuid(&self) -> (r: &'static str)
        ensures
            r@ == self.uuid_of(),
    {
        match self {
            Attribute::Firmware => FIRMWARE_CHARACTERISTIC_UUID,
            Attribute::DeviceMode => DEVICE_MODE_CHARACTERISTIC_UUID,
            Attribute::DeviceData => DEVICE_DATA_CHARACTERISTIC_UUID,
            Attribute::DeviceTime => DEVICE_TIME_CHARACTERISTIC_UUID,
            Attribute::HistoryMode => HISTORY_MODE_CHARACTERISTIC_UUID,
            Attribute::HistoryData => HISTORY_DATA_CHARACTERISTIC_UUID,
        }
    }

    /// How the characteristic is called in an error.
    pub fn label(&self) -> (r: &'static str)
        ensures
            r@ == self.label_of(),
    {
        match self {
            Attribute::Firmware => "Firmware info",
            Attribute::DeviceMode => "device mode",
            Attribute::DeviceData => "Device Realtime readout",
            Attribute::DeviceTime => "Device time",
            Attribute::HistoryMode => "history mode",
            Attribute::HistoryData => "history data",
        }
    }
}

/// The object is the characteristic `attribute` of some sensor.
pub open spec fn is_characteristic(object: ObjectView, attribute: Attribute) -> bool {
    property_is(object, BLUEZ_GATT_CHARACTERISTIC_INTERFACE@, "UUID"@, attribute.uuid_of())
}

/// The failure says that the characteristic `uuid`, needed for `name`, was
/// not found.
pub open spec fn is_attribute_not_found(e: Error, name: Seq<char>, uuid: Seq<char>) -> bool {
    e matches Error::GATTAttributeNotFound { name: n, uuid: u } && n@ == name && u@ == uuid
}

/// The failure is that of the broker, sorted by the name of its error.
pub open spec fn is_broker_failure(e: Error, cause: DBusFault) -> bool {
    e matches Error::DBusError { cause: c } && c.cause == cause && c.kind == kind_of(
        name_view(cause.name),
    )
}

/// The failure says that the read of the characteristic at `path` failed
/// with `cause`, sorted by the name of its error.
pub open spec fn is_read_failure(
    e: Error,
    name: Seq<char>,
    uuid: Seq<char>,
    path: Seq<char>,
    cause: DBusFault,
) -> bool {
    e matches Error::ErrorReadingData { name: n, uuid: u, path: p, cause: c } && n@ == name
        && u@ == uuid && p@ == path && c.cause == cause && c.kind == kind_of(
        name_view(cause.name),
    )
}

/// The failure says that the write to the characteristic at `path` failed
/// with `cause`, sorted by the name of its error.
pub open spec fn is_write_failure(
    e: Error,
    name: Seq<char>,
    uuid: Seq<char>,
    path: Seq<char>,
    cause: DBusFault,
) -> bool {
    e matches Error::ErrorWritingData { name: n, uuid: u, path: p, cause: c } && n@ == name
        && u@ == uuid && p@ == path && c.cause == cause && c.kind == kind_of(
        name_view(cause.name),
    )
}

/// The path `found` is that of an object among `objects` that is the
/// characteristic; or nothing was found and no object is.
pub open spec fn found_in(
    found: Option<Seq<char>>,
    objects: super::dbus_bluez::Objects,
    attribute: Attribute,
) -> bool {
    match found {
        Some(path) => objects.contains_key(path) && is_characteristic(objects[path], attribute),
        None => forall|path: Seq<char>| #[trigger]
            objects.contains_key(path) ==> !is_characteristic(objects[path], attribute),
    }
}

/// The characters of a path that may be missing.
pub open spec fn path_view(path: Option<String>) -> Option<Seq<char>> {
    match path {
        Some(p) => Some(p@),
        None => None,
    }
}

/// Where the driver stands with its sensor.
#[derive(Clone, Copy, Debug, PartialEq, Eq, Structural)]
pub enum DeviceState {
    /// The link is down.
    Disconnected,
    /// The link is up, but not every characteristic is known.
    Connected,
    /// The link is up and the characteristics are being looked for.
    Discovering,
    /// The link is up and every characteristic is known.
    Ready,
}

/// The sensor at the object path `device`: whether the link to it is up,
/// and where its characteristics were found.
#[derive(Debug)]
pub struct Miflora {
    device: String,
    connected: bool,
    discovering: bool,
    firmware: Option<String>,
    device_mode: Option<String>,
    device_data: Option<String>,
    device_time: Option<String>,
    history_mode: Option<String>,
    history_data: Option<String>,
}

impl Miflora {
    /// The object path of the sensor.
    pub closed spec fn device(&self) -> Seq<char> {
        self.device@
    }

    /// The object path of a characteristic, as far as it was found.
    pub closed spec fn path_of(&self, attribute: Attribute) -> Option<Seq<char>> {
        path_view(
            match attribute {
                Attribute::Firmware => self.firmware,
                Attribute::DeviceMode => self.device_mode,
                Attribute::DeviceData => self.device_data,
                Attribute::DeviceTime => self.device_time,
                Attribute::HistoryMode => self.history_mode,
                Attribute::HistoryData => self.history_data,
            },
        )
    }

    /// Every characteristic was found.
    pub open spec fn is_ready(&self) -> bool {
        forall|attribute: Attribute| self.path_of(attribute) is Some
    }

    /// The link to the sensor is up.
    pub closed spec fn is_connected(&self) -> bool {
        self.connected
    }

    /// The characteristics are being looked for.
    pub closed spec fn is_discovering(&self) -> bool {
        self.discovering
    }

    /// Where the driver stands.
    pub open spec fn state(&self) -> DeviceState {
        if !self.is_connected() {
            DeviceState::Disconnected
        } else if self.is_ready() {
            DeviceState::Ready
        } else if self.is_discovering() {
            DeviceState::Discovering
        } else {
            DeviceState::Connected
        }
    }

    /// The sensor at `device`, with the link down and no characteristic
    /// known yet.
    pub fn new(device: String) -> (r: Miflora)
        ensures
            r.device() == device@,
            forall|attribute: Attribute| r.path_of(attribute) is None,
            !r.is_connected(),
            !r.is_discovering(),
            r.state() == DeviceState::Disconnected,
    {
        Miflora {
            device,
            connected: false,
            discovering: false,
            firmware: None,
            device_mode: None,
            device_data: None,
            device_time: None,
            history_mode: None,
            history_data: None,
        }
    }

    /// The object path of the sensor.
    pub fn device_path(&self) -> (r: &str)
        ensures
            r@ == self.device(),
    {
        self.device.as_str()
    }

    fn slot(&self, attribute: Attribute) -> (r: &Option<String>)
        ensures
            path_view(*r) == self.path_of(attribute),
    {
        match attribute {
            Attribute::Firmware => &self.firmware,
            Attribute::DeviceMode => &self.device_mode,
            Attribute::DeviceData => &self.device_data,
            Attribute::DeviceTime => &self.device_time,
            Attribute::HistoryMode => &self.history_mode,
            Attribute::HistoryData => &self.history_data,
        }
    }

    fn set_slot(&mut self, attribute: Attribute, path: Option<String>)
        ensures
            final(self).device() == old(self).device(),
            final(self).is_connected() == old(self).is_connected(),
            final(self).is_discovering() == old(self).is_discovering(),
            forall|other: Attribute|
                #[trigger] final(self).path_of(other) == if other == attribute {
                    path_view(path)
                } else {
                    old(self).path_of(other)
                },
    {
        match attribute {
            Attribute::Firmware => {
                self.firmware = path;
            },
            Attribute::DeviceMode => {
                self.device_mode = path;
            },
            Attribute::DeviceData => {
                self.device_data = path;
            },
            Attribute::DeviceTime => {
                self.device_time = path;
            },
            Attribute::HistoryMode => {
                self.history_mode = path;
            },
            Attribute::HistoryData => {
                self.history_data = path;
            },
        }
    }

    /// Tells whether every characteristic was found.
    pub fn is_complete(&self) -> (r: bool)
        ensures
            r == self.is_ready(),
    {
        let r = self.firmware.is_some() && self.device_mode.is_some() && self.device_data.is_some()
            && self.device_time.is_some() && self.history_mode.is_some()
            && self.history_data.is_some();
        proof {
            if r {
                assert forall|attribute: Attribute| self.path_of(attribute) is Some by {}
            } else {
                assert(self.path_of(Attribute::Firmware) is None || self.path_of(
                    Attribute::DeviceMode,
                ) is None || self.path_of(Attribute::DeviceData) is None || self.path_of(
                    Attribute::DeviceTime,
                ) is None || self.path_of(Attribute::HistoryMode) is None || self.path_of(
                    Attribute::HistoryData,
                ) is None);
            }
        }
        r
    }

    fn note_one(&mut self, attribute: Attribute, path: &str, object: &DBusObject)
        ensures
            final(self).device() == old(self).device(),
            final(self).is_connected() == old(self).is_connected(),
            final(self).is_discovering() == old(self).is_discovering(),
            forall|other: Attribute|
                #[trigger] final(self).path_of(other) == if other == attribute
                    && is_characteristic(object@, attribute) {
                    Some(path@)
                } else {
                    old(self).path_of(other)
                },
    {
        if has_property(object, BLUEZ_GATT_CHARACTERISTIC_INTERFACE, "UUID", attribute.uuid()) {
            self.set_slot(attribute, Some(path.to_owned()));
        }
    }

    /// Looks at an object that has appeared at `path`: if it is one of the
    /// sensor's characteristics, its path is kept. The result tells
    /// whether every characteristic is found now.
    pub fn note_object(&mut self, path: &str, object: &DBusObject) -> (r: bool)
        ensures
            final(self).device() == old(self).device(),
            final(self).is_connected() == old(self).is_connected(),
            final(self).is_discovering() == old(self).is_discovering(),
            forall|attribute: Attribute|
                #[trigger] final(self).path_of(attribute) == if is_characteristic(
                    object@,
                    attribute,
                ) {
                    Some(path@)
                } else {
                    old(self).path_of(attribute)
                },
            r == final(self).is_ready(),
    {
        self.note_one(Attribute::Firmware, path, object);
        self.note_one(Attribute::DeviceMode, path, object);
        self.note_one(Attribute::DeviceData, path, object);
        self.note_one(Attribute::DeviceTime, path, object);
        self.note_one(Attribute::HistoryMode, path, object);
        self.note_one(Attribute::HistoryData, path, object);
        self.is_complete()
    }

    fn find_one(&mut self, attribute: Attribute, manager: &BluezManager)
        ensures
            final(self).device() == old(self).device(),
            final(self).is_connected() == old(self).is_connected(),
            final(self).is_discovering() == old(self).is_discovering(),
            forall|other: Attribute|
                other != attribute ==> #[trigger] final(self).path_of(other) == old(self).path_of(
                    other,
                ),
            found_in(final(self).path_of(attribute), manager@, attribute),
    {
        let query = Query::PropertyIs {
            interface: BLUEZ_GATT_CHARACTERISTIC_INTERFACE.to_owned(),
            property: "UUID".to_owned(),
            value: attribute.uuid().to_owned(),
        };
        let found = manager.find_object(&query);
        proof {
            if found is None {
                assert forall|path: Seq<char>| #[trigger]
                    manager@.contains_key(path) implies !is_characteristic(
                    manager@[path],
                    attribute,
                ) by {
                    if is_characteristic(manager@[path], attribute) {
                        assert(manager@.contains_key(path) && crate::dbus_common::utils::satisfies(
                            manager@[path],
                            query,
                        ));
                    }
                }
            }
        }
        self.set_slot(attribute, found);
    }

    /// Looks for the sensor's characteristics among the objects known now.
    /// What was found before is forgotten. The result tells whether every
    /// characteristic is found.
    pub fn find_gatt_attributes(&mut self, manager: &BluezManager) -> (r: bool)
        ensures
            final(self).device() == old(self).device(),
            final(self).is_connected() == old(self).is_connected(),
            final(self).is_discovering() == old(self).is_discovering(),
            forall|attribute: Attribute|
                found_in(#[trigger] final(self).path_of(attribute), manager@, attribute),
            r == final(self).is_ready(),
    {
        self.find_one(Attribute::Firmware, manager);
        self.find_one(Attribute::DeviceMode, manager);
        self.find_one(Attribute::DeviceData, manager);
        self.find_one(Attribute::DeviceTime, manager);
        self.find_one(Attribute::HistoryMode, manager);
        self.find_one(Attribute::HistoryData, manager);
        self.is_complete()
    }

    /// The object path of a characteristic, or the failure to report where
    /// it was not found; `name` says in the failure what it was needed for.
    pub fn attribute(&self, attribute: Attribute, name: &str) -> (r: Result<&str, Error>)
        ensures
            match r {
                Ok(path) => self.path_of(attribute) == Some(path@),
                Err(e) => self.path_of(attribute) is None && is_attribute_not_found(
                    e,
                    name@,
                    attribute.uuid_of(),
                ),
            },
    {
        match self.slot(attribute) {
            Some(path) => Ok(path.as_str()),
            None => Err(
                Error::GATTAttributeNotFound {
                    name: name.to_owned(),
                    uuid: attribute.uuid().to_owned(),
                },
            ),
        }
    }

    fn require(&self, attribute: Attribute) -> (r: Result<(), Error>)
        ensures
            r is Ok <==> self.path_of(attribute) is Some,
            r is Err ==> is_attribute_not_found(
                r->Err_0,
                attribute.label_of(),
                attribute.uuid_of(),
            ),
    {
        match self.attribute(attribute, attribute.label()) {
            Ok(_) => Ok(()),
            Err(e) => Err(e),
        }
    }

    fn require_all(&self) -> (r: Result<(), Error>)
        ensures
            r is Ok <==> self.is_ready(),
            r is Err ==> exists|attribute: Attribute|
                self.path_of(attribute) is None && #[trigger] is_attribute_not_found(
                    r->Err_0,
                    attribute.label_of(),
                    attribute.uuid_of(),
                ),
    {
        self.require(Attribute::Firmware)?;
        self.require(Attribute::DeviceMode)?;
        self.require(Attribute::DeviceData)?;
        self.require(Attribute::DeviceTime)?;
        self.require(Attribute::HistoryMode)?;
        self.require(Attribute::HistoryData)?;
        Ok(())
    }

    /// Where the driver stands.
    pub fn current_state(&self) -> (r: DeviceState)
        ensures
            r == self.state(),
    {
        if !self.connected {
            DeviceState::Disconnected
        } else if self.is_complete() {
            DeviceState::Ready
        } else if self.discovering {
            DeviceState::Discovering
        } else {
            DeviceState::Connected
        }
    }

    /// Takes in what a connection attempt came to: `connected` is the flag
    /// that the device shows after the call. With the link down the attempt
    /// has failed. With the link up the characteristics are looked for
    /// among the objects known now; the result tells whether every one was
    /// found, and the search for the others has begun where it was not.
    pub fn connect(&mut self, connected: bool, manager: &BluezManager) -> (r: Result<bool, Error>)
        ensures
            final(self).device() == old(self).device(),
            final(self).is_connected() == connected,
            match r {
                Ok(complete) => {
                    &&& connected
                    &&& complete == final(self).is_ready()
                    &&& final(self).is_discovering() == !complete
                    &&& forall|attribute: Attribute|
                        found_in(#[trigger] final(self).path_of(attribute), manager@, attribute)
                },
                Err(e) => {
                    &&& !connected
                    &&& e matches Error::NotConnected
                    &&& !final(self).is_discovering()
                    &&& forall|attribute: Attribute|
                        #[trigger] final(self).path_of(attribute) == old(self).path_of(attribute)
                },
            },
    {
        self.connected = connected;
        if !connected {
            self.discovering = false;
            return Err(Error::NotConnected);
        }
        let complete = self.find_gatt_attributes(manager);
        let ghost found = *self;
        self.discovering = !complete;
        proof {
            assert forall|attribute: Attribute| #[trigger]
                self.path_of(attribute) == found.path_of(attribute) by {}
            if found.is_ready() {
                assert forall|attribute: Attribute| self.path_of(attribute) is Some by {
                    assert(found.path_of(attribute) is Some);
                }
            }
            if self.is_ready() {
                assert forall|attribute: Attribute| found.path_of(attribute) is Some by {
                    assert(self.path_of(attribute) is Some);
                }
            }
        }
        Ok(complete)
    }

    /// Ends the search for the characteristics. The sensor can be used
    /// where every one was found; else the failure names one that is
    /// missing.
    pub fn finish_discovery(&mut self) -> (r: Result<(), Error>)
        ensures
            final(self).device() == old(self).device(),
            final(self).is_connected() == old(self).is_connected(),
            !final(self).is_discovering(),
            forall|attribute: Attribute|
                #[trigger] final(self).path_of(attribute) == old(self).path_of(attribute),
            r is Ok <==> old(self).is_ready(),
            r is Err ==> exists|attribute: Attribute|
                old(self).path_of(attribute) is None && #[trigger] is_attribute_not_found(
                    r->Err_0,
                    attribute.label_of(),
                    attribute.uuid_of(),
                ),
    {
        let r = self.require_all();
        self.discovering = false;
        r
    }

    /// Takes in what taking the link down came to. A failure of the broker
    /// is reported with its kind and leaves the driver where it stands.
    pub fn disconnect(&mut self, outcome: Result<(), DBusFault>) -> (r: Result<(), Error>)
        ensures
            final(self).device() == old(self).device(),
            forall|attribute: Attribute|
                #[trigger] final(self).path_of(attribute) == old(self).path_of(attribute),
            match outcome {
                Ok(_) => r is Ok && final(self).state() == DeviceState::Disconnected
                    && !final(self).is_discovering(),
                Err(cause) => r is Err && is_broker_failure(r->Err_0, cause)
                    && final(self).is_connected() == old(self).is_connected()
                    && final(self).is_discovering() == old(self).is_discovering(),
            },
    {
        match outcome {
            Ok(_) => {
                self.connected = false;
                self.discovering = false;
                Ok(())
            },
            Err(cause) => Err(Error::DBusError { cause: TypedDbusError::from(cause) }),
        }
    }

    /// The failure of a read of the characteristic at `path`.
    pub fn reading_failed(name: &str, uuid: &str, path: &str, cause: DBusFault) -> (r: Error)
        ensures
            is_read_failure(r, name@, uuid@, path@, cause),
    {
        Error::ErrorReadingData {
            name: name.to_owned(),
            uuid: uuid.to_owned(),
            path: path.to_owned(),
            cause: TypedDbusError::from(cause),
        }
    }

    /// The failure of a write to the characteristic at `path`.
    pub fn writing_failed(name: &str, uuid: &str, path: &str, cause: DBusFault) -> (r: Error)
        ensures
            is_write_failure(r, name@, uuid@, path@, cause),
    {
        Error::ErrorWritingData {
            name: name.to_owned(),
            uuid: uuid.to_owned(),
            path: path.to_owned(),
            cause: TypedDbusError::from(cause),
        }
    }

    /// The battery level in percent: the first byte of the firmware readout.
    pub fn get_battery_pct(data: &[u8]) -> (r: Result<u8, Error>)
        ensures
            r == as_invalid_data(
                if data@.len() < 1 {
                    Err(InvalidDataCause::UnexpectedEof)
                } else {
                    Ok(data@[0])
                },
            ),
    {
        if data.len() < 1 {
            return Err(Error::InvalidData { cause: InvalidDataCause::UnexpectedEof });
        }
        Ok(data[0])
    }

    /// The sensor's clock: seconds since it was started, in the first four
    /// bytes.
    pub fn get_device_time(data: &[u8]) -> (r: Result<u32, Error>)
        ensures
            r == as_invalid_data(
                if data@.len() < 4 {
                    Err(InvalidDataCause::UnexpectedEof)
                } else {
                    Ok(le_u32(data@, 0) as u32)
                },
            ),
    {
        if data.len() < 4 {
            return Err(Error::InvalidData { cause: InvalidDataCause::UnexpectedEof });
        }
        Ok(read_le_u32(data, 0))
    }

    /// The number of records in the history store, in the first two bytes.
    pub fn get_history_record_count(data: &[u8]) -> (r: Result<u16, Error>)
        ensures
            r == as_invalid_data(
                if data@.len() < 2 {
                    Err(InvalidDataCause::UnexpectedEof)
                } else {
                    Ok(le_u16(data@, 0) as u16)
                },
            ),
    {
        if data.len() < 2 {
            return Err(Error::InvalidData { cause: InvalidDataCause::UnexpectedEof });
        }
        Ok(read_le_u16(data, 0))
    }

    /// The firmware version: the text in bytes 2 to 6 of the firmware readout.
    pub fn get_firmware_version(data: &[u8]) -> (r: Result<String, Error>)
        ensures
            match r {
                Ok(version) => data@.len() >= FIRMWARE_DATA_LEN && valid_utf8(data@.subrange(2, 7))
                    && version@ == decode_utf8(data@.subrange(2, 7)),
                Err(e) => e == (Error::InvalidData {
                    cause: if data@.len() < FIRMWARE_DATA_LEN {
                        InvalidDataCause::UnexpectedEof
                    } else {
                        InvalidDataCause::InvalidUtf8
                    },
                }) && (data@.len() < FIRMWARE_DATA_LEN || !valid_utf8(data@.subrange(2, 7))),
            },
    {
        if data.len() < FIRMWARE_DATA_LEN {
            return Err(Error::InvalidData { cause: InvalidDataCause::UnexpectedEof });
        }
        let bytes = slice_to_vec(slice_subrange(data, 2, 7));
        match crate::text::string_from_utf8(bytes) {
            Some(version) => Ok(version),
            None => Err(Error::InvalidData { cause: InvalidDataCause::InvalidUtf8 }),
        }
    }

    /// What the sensor measures now, from the readout of its data
    /// characteristic.
    pub fn get_realtime_reading(data: &[u8]) -> (r: Result<RealtimeReadings, Error>)
        ensures
            r == as_invalid_data(realtime_data_of(data@)),
    {
        decode_realtime_data(data)
    }

    /// Decodes the payload that was read for record `idx` and gives the
    /// record its number.
    pub fn read_history_record(idx: u16, data: &[u8]) -> (r: Result<Option<HistoryReadings>, Error>)
        ensures
            r == as_invalid_data(numbered(history_data_of(data@), idx)),
    {
        match decode_history_data(data) {
            Ok(Some(record)) => Ok(
                Some(
                    HistoryReadings {
                        record_number: idx,
                        epoch: record.epoch,
                        temperature: record.temperature,
                        lux: record.lux,
                        moisture: record.moisture,
                        conductivity: record.conductivity,
                    },
                ),
            ),
            Ok(None) => Ok(None),
            Err(e) => Err(e),
        }
    }

    /// The records in the payloads that were read for the record numbers
    /// from `from` on, in their order. Blank records are left out; the
    /// first payload that cannot be decoded makes the whole call fail.
    pub fn get_history_records(from: u16, payloads: &Vec<Vec<u8>>) -> (r: Result<
        Vec<HistoryReadings>,
        Error,
    >)
        requires
            from + payloads@.len() <= 0x1_0000,
        ensures
            match r {
                Ok(records) => collected(from, payloads@, payloads@.len() as int) == Ok::<
                    Seq<HistoryReadings>,
                    InvalidDataCause,
                >(records@),
                Err(e) => collected(from, payloads@, payloads@.len() as int) matches Err(cause)
                    && e == (Error::InvalidData { cause }),
            },
    {
        let mut result: Vec<HistoryReadings> = Vec::new();
        let mut i: usize = 0;
        while i < payloads.len()
            invariant
                i <= payloads@.len(),
                from + payloads@.len() <= 0x1_0000,
                collected(from, payloads@, i as int) == Ok::<
                    Seq<HistoryReadings>,
                    InvalidDataCause,
                >(result@),
            decreases payloads@.len() - i,
        {
            let idx: u16 = (from as usize + i) as u16;
            match Miflora::read_history_record(idx, payloads[i].as_slice()) {
                Ok(Some(record)) => {
                    result.push(record);
                },
                Ok(None) => {},
                Err(e) => {
                    proof {
                        lemma_collected_fails_on(
                            from,
                            payloads@,
                            i as int + 1,
                            payloads@.len() as int,
                        );
                    }
                    return Err(e);
                },
            }
            i = i + 1;
        }
        Ok(result)
    }
}

/// A decoded record with its number.
pub open spec fn numbered(
    decoded: Result<Option<HistoryReadings>, InvalidDataCause>,
    idx: u16,
) -> Result<Option<HistoryReadings>, InvalidDataCause> {
    match decoded {
        Ok(Some(record)) => Ok(Some(HistoryReadings { record_number: idx, ..record })),
        Ok(None) => Ok(None),
        Err(cause) => Err(cause),
    }
}

/// The records in the first `upto` payloads, numbered from `from` on, or
/// the failure of the first payload that cannot be decoded.
pub open spec fn collected(from: u16, payloads: Seq<Vec<u8>>, upto: int) -> Result<
    Seq<HistoryReadings>,
    InvalidDataCause,
>
    decreases upto,
{
    if upto <= 0 {
        Ok(Seq::empty())
    } else {
        match collected(from, payloads, upto - 1) {
            Err(cause) => Err(cause),
            Ok(before) => match numbered(
                history_data_of(payloads[upto - 1]@),
                (from + upto - 1) as u16,
            ) {
                Err(cause) => Err(cause),
                Ok(None) => Ok(before),
                Ok(Some(record)) => Ok(before.push(record)),
            },
        }
    }
}

proof fn lemma_collected_fails_on(from: u16, payloads: Seq<Vec<u8>>, failed: int, upto: int)
    requires
        0 < failed <= upto,
        collected(from, payloads, failed) is Err,
    ensures
        collected(from, payloads, upto) == collected(from, payloads, failed),
    decreases upto - failed,
{
    if failed < upto {
        lemma_collected_fails_on(from, payloads, failed, upto - 1);
    }
}

/// Every record that is collected comes from a payload that is not blank
/// and carries the number of that payload; blank payloads add nothing.
pub proof fn collected_records_are_not_blank(from: u16, payloads: Seq<Vec<u8>>, upto: int, k: int)
    requires
        0 <= upto <= payloads.len(),
        from + payloads.len() <= 0x1_0000,
        collected(from, payloads, upto) is Ok,
        0 <= k < collected(from, payloads, upto).unwrap().len(),
    ensures
        ({
            let record = collected(from, payloads, upto).unwrap()[k];
            let i = record.record_number - from;
            &&& 0 <= i < upto
            &&& !is_blank_record(payloads[i]@)
            &&& payloads[i]@.len() >= HISTORY_RECORD_LEN
            &&& record == HistoryReadings {
                record_number: record.record_number,
                ..history_record_of(payloads[i]@)
            }
        }),
    decreases upto,
{
    if upto > 0 {
        let before = collected(from, payloads, upto - 1).unwrap();
        if k < before.len() {
            collected_records_are_not_blank(from, payloads, upto - 1, k);
        }
    }
}

/// A sensor that is ready is connected and every characteristic of it is
/// known; with the link down the driver is never ready.
pub proof fn ready_sensor_is_complete(sensor: Miflora)
    ensures
        sensor.state() == DeviceState::Ready <==> sensor.is_connected() && sensor.is_ready(),
        sensor.state() == DeviceState::Disconnected <==> !sensor.is_connected(),
{
}

/// A blank record never comes out of the decoder as a record.
pub proof fn blank_record_is_dropped(data: Seq<u8>)
    requires
        is_blank_record(data),
    ensures
        history_data_of(data) == Ok::<Option<HistoryReadings>, InvalidDataCause>(None),
{
}

/// Sixteen bytes that are all zero, or all `0xff`, are a blank record.
pub proof fn uniform_record_is_blank(data: Seq<u8>, value: u8)
    requires
        data.len() == HISTORY_RECORD_LEN,
        value == 0x00 || value == 0xff,
        forall|i: int| 0 <= i < data.len() ==> data[i] == value,
    ensures
        is_blank_record(data),
{
}

/// A payload of sixteen bytes or more that is not blank decodes to its
/// record.
pub proof fn full_record_is_decoded(data: Seq<u8>)
    requires
        data.len() >= HISTORY_RECORD_LEN,
        !is_blank_record(data),
    ensures
        history_data_of(data) == Ok::<Option<HistoryReadings>, InvalidDataCause>(
            Some(history_record_of(data)),
        ),
{
}

} // verus!
