//! Reading the plant sensor in one go: its data service and the three
//! characteristics in it are looked up by their UUIDs, and one report is
//! made of a realtime readout, the firmware readout and the serial number.

use super::dbus_bluez::{BluezManager, DBusFault, Objects};
use crate::dbus_common::utils::{
    has_property, interface_query, passes_interface_filter, property_is,
};
use crate::text::{hex_encode, hex_lower, string_from_utf8, views_of};
use crate::wire::{le_u16, le_u32, read_le_u16, read_le_u32};
use vstd::prelude::*;
use vstd::slice::{slice_subrange, slice_to_vec};
use vstd::utf8::{decode_utf8, valid_utf8};

verus! {

pub const DATA_SERVICE_UUID: &'static str = "00001204-0000-1000-8000-00805f9b34fb";

pub const FIRMWARE_CHAR_UUID: &'static str = "00001a02-0000-1000-8000-00805f9b34fb";

pub const DEVICE_MODE_CHAR_UUID: &'static str = "00001a00-0000-1000-8000-00805f9b34fb";

pub const DATA_CHAR_UUID: &'static str = "00001a01-0000-1000-8000-00805f9b34fb";

pub const GATT_SERVICE_INTERFACE: &'static str = "org.bluez.GattService1";

pub const GATT_CHARACTERISTIC_INTERFACE: &'static str = "org.bluez.GattCharacteristic1";

/// What is reported as the origin of a readout.
pub const SOURCE: &'static str = "hat-miflora";

/// What can go wrong with this way of reading the sensor.
#[derive(Debug)]
pub enum AppError {
    DBusConnectError(DBusFault),
    DBusDeviceConnectError(DBusFault),
    DBusDeviceModeConfirmError,
    DBusDeviceModeReadError(DBusFault),
    DBusDeviceModeWriteError(DBusFault),
    DBusDeviceScanConnectError(DBusFault),
    DBusDeviceScanDisconnectError(DBusFault),
    DBusReadingPropertyError(DBusFault, String),
    BlinkError(Box<AppError>),
    JSONError,
    ReadingMifloraDataError,
    ReadingMifloraVersionError,
    ReadingFirmwareDataError,
    ReadingDataValues,
    UnexpectedFirmwareDataLength,
    ParsingConductivityError,
    ParsingMoistureError,
    ParsingLuxError,
    ParsingUnknownError,
    ParsingTemperatureError,
    CantFindFirmwareCharacteristicUuid,
    CantFindDeviceModeCharacteristicUuid,
    CantFindDataCharacteristicUuid,
    DBusCannotGetObjects,
    CannotFindDataServiceUuid,
    DBusCannotFindCharacteristics,
}

/// A sensor that is known by its object path only.
#[derive(Debug)]
pub struct Miflora {
    pub device_path: String,
}

/// A sensor whose characteristics were looked up.
#[derive(Debug)]
pub struct ConnectedMiflora {
    pub device_objpath: String,
    pub firmware_objpath: String,
    pub device_mode_objpath: String,
    pub data_objpath: String,
}

/// One report of the sensor. The time is in milliseconds, the temperature
/// in tenths of a degree Celsius.
#[derive(Debug)]
pub struct MifloraReadings {
    pub source: String,
    pub name: String,
    pub address: String,
    pub created_at: i64,
    pub temperature: u16,
    pub lux: u32,
    pub moisture: u8,
    pub conductivity: u16,
    pub battery: u8,
    pub version: String,
    pub serial: String,
}

/// The numbers of a realtime readout.
#[derive(Clone, Copy, Debug, PartialEq, Eq, Structural)]
pub struct RealtimeValues {
    pub temperature: u16,
    pub lux: u32,
    pub moisture: u8,
    pub conductivity: u16,
}

/// The object at `path` is the data service of the sensor at `device`.
pub open spec fn is_data_service(objects: Objects, device: Seq<char>, path: Seq<char>) -> bool {
    &&& objects.contains_key(path)
    &&& passes_interface_filter(objects[path], GATT_SERVICE_INTERFACE@, device, "Device"@)
    &&& property_is(objects[path], GATT_SERVICE_INTERFACE@, "UUID"@, DATA_SERVICE_UUID@)
}

/// The object at `path` is the characteristic `uuid` of the service at
/// `service`.
pub open spec fn is_characteristic_of(
    objects: Objects,
    service: Seq<char>,
    path: Seq<char>,
    uuid: Seq<char>,
) -> bool {
    &&& objects.contains_key(path)
    &&& passes_interface_filter(objects[path], GATT_CHARACTERISTIC_INTERFACE@, service, "Service"@)
    &&& property_is(objects[path], GATT_CHARACTERISTIC_INTERFACE@, "UUID"@, uuid)
}

/// The characteristics of `found` are those of the data service at
/// `service` of the sensor at `device`.
pub open spec fn is_located(
    objects: Objects,
    device: Seq<char>,
    service: Seq<char>,
    found: ConnectedMiflora,
) -> bool {
    &&& found.device_objpath@ == device
    &&& is_data_service(objects, device, service)
    &&& is_characteristic_of(objects, service, found.firmware_objpath@, FIRMWARE_CHAR_UUID@)
    &&& is_characteristic_of(objects, service, found.device_mode_objpath@, DEVICE_MODE_CHAR_UUID@)
    &&& is_characteristic_of(objects, service, found.data_objpath@, DATA_CHAR_UUID@)
}

/// The service at `service` is the data service of the sensor at `device`
/// and has no characteristic `uuid`.
pub open spec fn lacks_characteristic(
    objects: Objects,
    device: Seq<char>,
    service: Seq<char>,
    uuid: Seq<char>,
) -> bool {
    is_data_service(objects, device, service) && forall|path: Seq<char>|
        !#[trigger] is_characteristic_of(objects, service, path, uuid)
}

/// What the lookup of the characteristics of the sensor at `device` may
/// come to.
pub open spec fn is_lookup_result(
    objects: Objects,
    device: Seq<char>,
    result: Result<ConnectedMiflora, AppError>,
) -> bool {
    match result {
        Ok(found) => exists|service: Seq<char>| #[trigger]
            is_located(objects, device, service, found),
        Err(AppError::CannotFindDataServiceUuid) => forall|path: Seq<char>|
            !#[trigger] is_data_service(objects, device, path),
        Err(AppError::CantFindFirmwareCharacteristicUuid) => exists|service: Seq<char>| #[trigger]
            lacks_characteristic(objects, device, service, FIRMWARE_CHAR_UUID@),
        Err(AppError::CantFindDeviceModeCharacteristicUuid) => exists|service: Seq<char>| #[trigger]
            lacks_characteristic(objects, device, service, DEVICE_MODE_CHAR_UUID@),
        Err(AppError::CantFindDataCharacteristicUuid) => exists|service: Seq<char>| #[trigger]
            lacks_characteristic(objects, device, service, DATA_CHAR_UUID@),
        Err(_) => false,
    }
}

/// The first of the candidates that has the UUID `uuid` on `interface`.
fn first_with_uuid(
    manager: &BluezManager,
    candidates: &Vec<String>,
    interface: &str,
    uuid: &str,
) -> (r: Option<String>)
    ensures
        match r {
            Some(path) => views_of(candidates@).contains(path@) && manager@.contains_key(path@)
                && property_is(manager@[path@], interface@, "UUID"@, uuid@),
            None => forall|i: int|
                0 <= i < candidates@.len() && manager@.contains_key(
                    #[trigger] candidates@[i]@,
                ) ==> !property_is(manager@[candidates@[i]@], interface@, "UUID"@, uuid@),
        },
{
    let mut i: usize = 0;
    while i < candidates.len()
        invariant
            i <= candidates@.len(),
            forall|j: int|
                0 <= j < i && manager@.contains_key(#[trigger] candidates@[j]@) ==> !property_is(
                    manager@[candidates@[j]@],
                    interface@,
                    "UUID"@,
                    uuid@,
                ),
        decreases candidates@.len() - i,
    {
        match manager.get(candidates[i].as_str()) {
            Some(object) => {
                if has_property(object, interface, "UUID", uuid) {
                    assert(views_of(candidates@)[i as int] == candidates@[i as int]@);
                    return Some(candidates[i].clone());
                }
            },
            None => {},
        }
        i = i + 1;
    }
    None
}

/// The characteristic `uuid` of the service at `service`, if it has one.
fn characteristic_of(manager: &BluezManager, service: &str, uuid: &str) -> (r: Option<String>)
    ensures
        match r {
            Some(path) => is_characteristic_of(manager@, service@, path@, uuid@),
            None => forall|path: Seq<char>|
                !#[trigger] is_characteristic_of(manager@, service@, path, uuid@),
        },
{
    let query = interface_query(GATT_CHARACTERISTIC_INTERFACE, service, "Service");
    let candidates = manager.find_objects(&query);
    let found = first_with_uuid(manager, &candidates, GATT_CHARACTERISTIC_INTERFACE, uuid);
    proof {
        if found is None {
            assert forall|path: Seq<char>|
                !#[trigger] is_characteristic_of(manager@, service@, path, uuid@) by {
                if is_characteristic_of(manager@, service@, path, uuid@) {
                    assert(crate::dbus_common::utils::satisfies(manager@[path], query));
                    assert(views_of(candidates@).contains(path));
                    let i = choose|i: int|
                        0 <= i < views_of(candidates@).len() && views_of(candidates@)[i] == path;
                    assert(candidates@[i]@ == path);
                }
            }
        } else {
            let path = found->Some_0@;
            assert(crate::dbus_common::utils::satisfies(manager@[path], query));
        }
    }
    found
}

impl Miflora {
    /// A sensor at `device_path`.
    pub fn new(device_path: String) -> (r: Miflora)
        ensures
            r.device_path == device_path,
    {
        Miflora { device_path }
    }

    /// Looks up the data service of the sensor and its characteristics
    /// among the objects known now.
    pub fn connect(&self, manager: &BluezManager) -> (r: Result<ConnectedMiflora, AppError>)
        ensures
            is_lookup_result(manager@, self.device_path@, r),
    {
        let device = self.device_path.as_str();
        let query = interface_query(GATT_SERVICE_INTERFACE, device, "Device");
        let services = manager.find_objects(&query);
        let data_service = match first_with_uuid(
            manager,
            &services,
            GATT_SERVICE_INTERFACE,
            DATA_SERVICE_UUID,
        ) {
            Some(path) => path,
            None => {
                proof {
                    assert forall|path: Seq<char>|
                        !#[trigger] is_data_service(manager@, device@, path) by {
                        if is_data_service(manager@, device@, path) {
                            assert(crate::dbus_common::utils::satisfies(manager@[path], query));
                            assert(views_of(services@).contains(path));
                            let i = choose|i: int|
                                0 <= i < views_of(services@).len() && views_of(services@)[i]
                                    == path;
                            assert(services@[i]@ == path);
                        }
                    }
                }
                return Err(AppError::CannotFindDataServiceUuid);
            },
        };
        proof {
            assert(crate::dbus_common::utils::satisfies(manager@[data_service@], query));
            assert(is_data_service(manager@, device@, data_service@));
        }
        let firmware_char = match characteristic_of(
            manager,
            data_service.as_str(),
            FIRMWARE_CHAR_UUID,
        ) {
            Some(path) => path,
            None => {
                assert(lacks_characteristic(
                    manager@,
                    device@,
                    data_service@,
                    FIRMWARE_CHAR_UUID@,
                ));
                return Err(AppError::CantFindFirmwareCharacteristicUuid);
            },
        };
        let device_mode_char = match characteristic_of(
            manager,
            data_service.as_str(),
            DEVICE_MODE_CHAR_UUID,
        ) {
            Some(path) => path,
            None => {
                assert(lacks_characteristic(
                    manager@,
                    device@,
                    data_service@,
                    DEVICE_MODE_CHAR_UUID@,
                ));
                return Err(AppError::CantFindDeviceModeCharacteristicUuid);
            },
        };
        let data_char = match characteristic_of(manager, data_service.as_str(), DATA_CHAR_UUID) {
            Some(path) => path,
            None => {
                assert(lacks_characteristic(manager@, device@, data_service@, DATA_CHAR_UUID@));
                return Err(AppError::CantFindDataCharacteristicUuid);
            },
        };
        let found = ConnectedMiflora::new(
            device,
            firmware_char.as_str(),
            device_mode_char.as_str(),
            data_char.as_str(),
        );
        let r: Result<ConnectedMiflora, AppError> = Ok(found);
        assert(is_located(manager@, self.device_path@, data_service@, r->Ok_0));
        r
    }
}

/// The numbers in a realtime readout, or the failure for the first field
/// that the readout is too short for.
pub open spec fn realtime_values_of(data: Seq<u8>) -> Result<RealtimeValues, AppError> {
    if data.len() < 2 {
        Err(AppError::ParsingTemperatureError)
    } else if data.len() < 3 {
        Err(AppError::ParsingUnknownError)
    } else if data.len() < 7 {
        Err(AppError::ParsingLuxError)
    } else if data.len() < 8 {
        Err(AppError::ParsingMoistureError)
    } else if data.len() < 10 {
        Err(AppError::ParsingConductivityError)
    } else {
        Ok(
            RealtimeValues {
                temperature: le_u16(data, 0) as u16,
                lux: le_u32(data, 3) as u32,
                moisture: data[7],
                conductivity: le_u16(data, 8) as u16,
            },
        )
    }
}

/// The failure that a firmware readout gives, if it gives one: it must be
/// seven bytes long, the last five of them text.
pub open spec fn firmware_failure_of(firmware: Seq<u8>) -> Option<AppError> {
    if firmware.len() != 7 {
        Some(AppError::UnexpectedFirmwareDataLength)
    } else if !valid_utf8(firmware.subrange(2, 7)) {
        Some(AppError::ReadingMifloraVersionError)
    } else {
        None
    }
}

/// The report is the one made of these readouts.
pub open spec fn is_report_of(
    report: MifloraReadings,
    name: Seq<char>,
    address: Seq<char>,
    created_at: i64,
    data: Seq<u8>,
    firmware: Seq<u8>,
    serial: Seq<u8>,
) -> bool {
    &&& report.source@ == SOURCE@
    &&& report.name@ == name
    &&& report.address@ == address
    &&& report.created_at == created_at
    &&& realtime_values_of(data) == Ok::<RealtimeValues, AppError>(
        RealtimeValues {
            temperature: report.temperature,
            lux: report.lux,
            moisture: report.moisture,
            conductivity: report.conductivity,
        },
    )
    &&& firmware.len() == 7
    &&& report.battery == firmware[0]
    &&& report.version@ == decode_utf8(firmware.subrange(2, 7))
    &&& report.serial@ == hex_lower(serial)
}

impl ConnectedMiflora {
    /// A sensor with its characteristics at these object paths.
    pub fn new(
        device_objpath: &str,
        firmware_objpath: &str,
        device_mode_objpath: &str,
        data_objpath: &str,
    ) -> (r: ConnectedMiflora)
        ensures
            r.device_objpath@ == device_objpath@,
            r.firmware_objpath@ == firmware_objpath@,
            r.device_mode_objpath@ == device_mode_objpath@,
            r.data_objpath@ == data_objpath@,
    {
        ConnectedMiflora {
            device_objpath: device_objpath.to_owned(),
            firmware_objpath: firmware_objpath.to_owned(),
            device_mode_objpath: device_mode_objpath.to_owned(),
            data_objpath: data_objpath.to_owned(),
        }
    }

    /// Settles whether the sensor has taken a mode: `echoed` is what the
    /// mode characteristic holds after `command` was written to it.
    pub fn set_device_mode(command: &[u8], echoed: &[u8]) -> (r: Result<(), AppError>)
        ensures
            r == (if echoed@ == command@ {
                Ok::<(), AppError>(())
            } else {
                Err(AppError::DBusDeviceModeConfirmError)
            }),
    {
        if echoed.len() != command.len() {
            return Err(AppError::DBusDeviceModeConfirmError);
        }
        let mut i: usize = 0;
        while i < command.len()
            invariant
                i <= command@.len(),
                echoed@.len() == command@.len(),
                forall|j: int| 0 <= j < i ==> echoed@[j] == command@[j],
            decreases command@.len() - i,
        {
            if echoed[i] != command[i] {
                return Err(AppError::DBusDeviceModeConfirmError);
            }
            i = i + 1;
        }
        assert(echoed@ =~= command@);
        Ok(())
    }

    /// What a failure to make the sensor blink is reported as.
    pub fn blink(failure: AppError) -> (r: AppError)
        ensures
            r == AppError::BlinkError(Box::new(failure)),
    {
        AppError::BlinkError(Box::new(failure))
    }

    /// The numbers in a realtime readout.
    pub fn realtime_values(data: &[u8]) -> (r: Result<RealtimeValues, AppError>)
        ensures
            r == realtime_values_of(data@),
    {
        if data.len() < 2 {
            return Err(AppError::ParsingTemperatureError);
        }
        if data.len() < 3 {
            return Err(AppError::ParsingUnknownError);
        }
        if data.len() < 7 {
            return Err(AppError::ParsingLuxError);
        }
        if data.len() < 8 {
            return Err(AppError::ParsingMoistureError);
        }
        if data.len() < 10 {
            return Err(AppError::ParsingConductivityError);
        }
        Ok(
            RealtimeValues {
                temperature: read_le_u16(data, 0),
                lux: read_le_u32(data, 3),
                moisture: data[7],
                conductivity: read_le_u16(data, 8),
            },
        )
    }

    /// Makes the report of a realtime readout `data`, the firmware readout
    /// `firmware` and the readout `serial`, which is reported in
    /// hexadecimal. Of several failures the one of the realtime readout is
    /// reported before that of the firmware readout.
    pub fn realtime(
        name: &str,
        address: &str,
        created_at: i64,
        data: &[u8],
        firmware: &[u8],
        serial: &[u8],
    ) -> (r: Result<MifloraReadings, AppError>)
        ensures
            match r {
                Ok(report) => is_report_of(
                    report,
                    name@,
                    address@,
                    created_at,
                    data@,
                    firmware@,
                    serial@,
                ),
                Err(e) => match realtime_values_of(data@) {
                    Err(failure) => e == failure,
                    Ok(_) => firmware_failure_of(firmware@) == Some(e),
                },
            },
            r is Ok <==> realtime_values_of(data@) is Ok && firmware_failure_of(firmware@) is None,
    {
        let values = match ConnectedMiflora::realtime_values(data) {
            Ok(values) => values,
            Err(e) => {
                return Err(e);
            },
        };
        if firmware.len() != 7 {
            return Err(AppError::UnexpectedFirmwareDataLength);
        }
        let battery: u8 = firmware[0];
        let version = match string_from_utf8(slice_to_vec(slice_subrange(firmware, 2, 7))) {
            Some(version) => version,
            None => {
                return Err(AppError::ReadingMifloraVersionError);
            },
        };
        Ok(
            MifloraReadings {
                source: SOURCE.to_owned(),
                name: name.to_owned(),
                address: address.to_owned(),
                created_at,
                temperature: values.temperature,
                lux: values.lux,
                moisture: values.moisture,
                conductivity: values.conductivity,
                battery,
                version,
                serial: hex_encode(serial),
            },
        )
    }
}

} // verus!
