use hat_ble::btlepasvscan::Error as ScanError;
use hat_ble::dbus_common::utils::{
    get_adapter, get_managed_objects_with_interface, get_property, DBusObject, PropertyBag,
};
use hat_ble::dbus_common::value::Value;
use hat_ble::mibcs::cli::Cli;
use hat_ble::mibcs::dbus_scanner::Scanner;
use hat_ble::mibcs::dbus_weight_data::{DecodeError, WeightData};
use hat_ble::miflora::cli::Cli as MifloraCli;
use hat_ble::miflora::cmd_opts::{CmdOpts, Command};
use hat_ble::miflora::connected::{AppError, ConnectedMiflora, Miflora, RealtimeValues};
use hat_ble::miflora::dbus_bluez::BluezManager;
use hat_ble::str_map::StrMap;
use hat_ble::text::str_eq;

const BODY_COMPOSITION: &str = "0000181b-0000-1000-8000-00805f9b34fb";
const SERVICE_DATA: [u8; 13] =
    [0x02, 0xa6, 0xe3, 0x07, 0x05, 0x01, 0x16, 0x20, 0x2a, 0x96, 0x01, 0xb0, 0x4a];

fn string_value(s: &str) -> Value {
    Value::Str(s.to_string())
}

fn properties_of(entries: Vec<(&str, Value)>) -> PropertyBag {
    let mut bag = StrMap::new();
    for (name, value) in entries {
        bag.insert(name.to_string(), value);
    }
    bag
}

fn single_interface(interface: &str, entries: Vec<(&str, Value)>) -> DBusObject {
    let mut object = StrMap::new();
    object.insert(interface.to_string(), properties_of(entries));
    object
}

fn service_data(status: u8) -> Vec<u8> {
    let mut data = SERVICE_DATA.to_vec();
    data[1] = status;
    data
}

#[test]
fn strings_are_compared_by_their_characters() {
    assert!(str_eq("", ""));
    assert!(str_eq("abc", "abc"));
    assert!(!str_eq("abc", "abd"));
    assert!(!str_eq("abc", "abcd"));
    assert!(!str_eq("abc", ""));
    assert!(str_eq("µS/cm", "µS/cm"));
    assert!(!str_eq("µ", "μ"));
}

#[test]
fn service_data_is_decoded() {
    let w = WeightData::decode_at(&SERVICE_DATA, "AA:BB", 77).unwrap();
    assert_eq!(w.source, "hat-mibcs");
    assert_eq!(w.address, "AA:BB");
    assert_eq!(w.created_at, 77);
    assert_eq!(w.weight, Some(19120));
    assert_eq!(w.impedance, Some(406));
    assert!(w.done());
    assert!((w.weight.unwrap() as f32 * 0.01 / 2.0 - 95.6).abs() < 1e-4);

    // a value is reported only where the scale has it and it has settled
    let w = WeightData::decode_at(&service_data(0b0010_0100), "AA:BB", 0).unwrap();
    assert_eq!((w.weight, w.impedance), (Some(19120), None));
    assert!(!w.done());
    let w = WeightData::decode_at(&service_data(0b1000_0010), "AA:BB", 0).unwrap();
    assert_eq!((w.weight, w.impedance), (None, Some(406)));
    let w = WeightData::decode_at(&service_data(0b1010_0000), "AA:BB", 0).unwrap();
    assert_eq!((w.weight, w.impedance), (None, None));
    let w = WeightData::decode_at(&service_data(0b0000_0110), "AA:BB", 0).unwrap();
    assert_eq!((w.weight, w.impedance), (None, None));

    assert_eq!(
        WeightData::decode_at(&SERVICE_DATA[..12], "AA:BB", 0).err(),
        Some(DecodeError::UnexpectedEof)
    );
    assert_eq!(WeightData::decode(&[], "AA:BB").err(), Some(DecodeError::UnexpectedEof));
    let w = WeightData::decode(&SERVICE_DATA, "AA:BB").unwrap();
    assert!(w.created_at > 1_500_000_000_000);
    assert_eq!(w.impedance, Some(406));
}

#[test]
fn changed_properties_are_searched() {
    let properties = properties_of(vec![
        ("Address", string_value("AA:BB")),
        ("Name", string_value("MIBCS")),
        ("UUIDs", Value::Array(vec![string_value(BODY_COMPOSITION)])),
    ]);
    let changed = vec![(
        string_value("ServiceData"),
        Value::Dict(vec![(string_value(BODY_COMPOSITION), Value::Bytes(SERVICE_DATA.to_vec()))]),
    )];
    let w = Scanner::inquiry_changed_properties(&properties, &changed, 5).unwrap().unwrap();
    assert_eq!(w.address, "AA:BB");
    assert_eq!(w.weight, Some(19120));
    assert_eq!(w.created_at, 5);

    // only the first changed property is looked at
    let rssi_first = vec![
        (string_value("RSSI"), Value::I16(-60)),
        (
            string_value("ServiceData"),
            Value::Dict(vec![(string_value(BODY_COMPOSITION), Value::Bytes(SERVICE_DATA.to_vec()))]),
        ),
    ];
    assert!(Scanner::inquiry_changed_properties(&properties, &rssi_first, 5).unwrap().is_none());
    assert!(Scanner::inquiry_changed_properties(&properties, &vec![], 5).unwrap().is_none());

    // another device
    let other = properties_of(vec![
        ("Address", string_value("AA:BB")),
        ("Name", string_value("Lamp")),
        ("UUIDs", Value::Array(vec![string_value("x")])),
    ]);
    assert!(Scanner::inquiry_changed_properties(&other, &changed, 5).unwrap().is_none());
    let nameless = properties_of(vec![
        ("Address", string_value("AA:BB")),
        ("UUIDs", Value::Array(vec![string_value(BODY_COMPOSITION)])),
    ]);
    assert!(Scanner::inquiry_changed_properties(&nameless, &changed, 5).unwrap().is_none());
    let odd_address = properties_of(vec![
        ("Address", Value::U8(1)),
        ("Name", string_value("MIBCS")),
        ("UUIDs", Value::Array(vec![string_value(BODY_COMPOSITION)])),
    ]);
    assert!(Scanner::inquiry_changed_properties(&odd_address, &changed, 5).unwrap().is_none());

    // service data that are too short are a failure
    let short = vec![(
        string_value("ServiceData"),
        Value::Dict(vec![(string_value(BODY_COMPOSITION), Value::Bytes(vec![1, 2, 3]))]),
    )];
    assert_eq!(
        Scanner::inquiry_changed_properties(&properties, &short, 5).err(),
        Some(DecodeError::UnexpectedEof)
    );
}

#[test]
fn service_data_entries_are_told_apart() {
    let bytes = Value::Bytes(SERVICE_DATA.to_vec());
    assert!(Scanner::extract_body_composition(&string_value(BODY_COMPOSITION), &bytes, "A", 0)
        .unwrap()
        .is_some());
    assert!(Scanner::extract_body_composition(&string_value("other"), &bytes, "A", 0).unwrap().is_none());
    assert!(Scanner::extract_body_composition(&Value::U8(1), &bytes, "A", 0).unwrap().is_none());
    assert!(Scanner::extract_body_composition(&string_value(BODY_COMPOSITION), &string_value("x"), "A", 0)
        .unwrap()
        .is_none());

    let dict = Value::Dict(vec![(string_value(BODY_COMPOSITION), Value::Bytes(SERVICE_DATA.to_vec()))]);
    assert!(Scanner::inquiry_service_data_values(&dict, "A", 0).unwrap().is_some());
    assert!(Scanner::inquiry_service_data_values(&Value::Dict(vec![]), "A", 0).unwrap().is_none());
    assert!(Scanner::inquiry_service_data_values(&string_value("x"), "A", 0).unwrap().is_none());
    assert!(Scanner::inquiry_service_data(&string_value("ServiceData"), &dict, "A", 0).unwrap().is_some());
    assert!(Scanner::inquiry_service_data(&string_value("RSSI"), &dict, "A", 0).unwrap().is_none());
}

#[test]
fn signals_are_told_apart() {
    let items = vec![string_value("org.bluez.Device1"), Value::Dict(vec![]), Value::Array(vec![])];
    let iface = Some("org.freedesktop.DBus.Properties");
    let member = Some("PropertiesChanged");
    assert!(Scanner::handle_signal(true, Some("/dev"), iface, member, &items));
    assert!(!Scanner::handle_signal(false, Some("/dev"), iface, member, &items));
    assert!(!Scanner::handle_signal(true, None, iface, member, &items));
    assert!(!Scanner::handle_signal(true, Some("/dev"), None, member, &items));
    assert!(!Scanner::handle_signal(true, Some("/dev"), iface, Some("Other"), &items));
    assert!(!Scanner::handle_signal(true, Some("/dev"), Some("x"), member, &items));
    assert!(!Scanner::handle_signal(true, Some("/dev"), iface, member, &vec![]));
    let items = vec![string_value("org.bluez.Adapter1"), Value::Dict(vec![])];
    assert!(!Scanner::handle_signal(true, Some("/dev"), iface, member, &items));
    let items = vec![string_value("org.bluez.Device1"), Value::Array(vec![])];
    assert!(!Scanner::handle_signal(true, Some("/dev"), iface, member, &items));
}

#[test]
fn complete_measurement_is_written_out_at_once() {
    let mut scanner = Scanner::new(&Cli { until_data: true, duration: 60 }, 0);
    let tick = scanner.listen_for_signals(None, 1000);
    assert!(tick.emit.is_none() && !tick.stop);
    let w = WeightData::decode_at(&SERVICE_DATA, "A", 2000).unwrap();
    let tick = scanner.listen_for_signals(Some(w), 2000);
    assert_eq!(tick.emit.map(|w| w.impedance), Some(Some(406)));
    assert!(tick.stop);
    // nothing waits any more
    let tick = scanner.listen_for_signals(None, 100_000);
    assert!(tick.emit.is_none());
    assert!(tick.stop);
}

#[test]
fn incomplete_measurement_waits_half_a_minute() {
    let mut scanner = Scanner::new(&Cli { until_data: false, duration: 0 }, 0);
    let w = WeightData::decode_at(&service_data(0b0010_0100), "A", 1000).unwrap();
    let tick = scanner.listen_for_signals(Some(w), 1000);
    assert!(tick.emit.is_none() && !tick.stop);
    // a reading without weight is passed over
    let empty = WeightData::decode_at(&service_data(0), "A", 2000).unwrap();
    let tick = scanner.listen_for_signals(Some(empty), 2000);
    assert!(tick.emit.is_none());
    let tick = scanner.listen_for_signals(None, 31_999);
    assert!(tick.emit.is_none());
    let tick = scanner.listen_for_signals(None, 32_000);
    assert_eq!(tick.emit.map(|w| (w.weight, w.impedance)), Some((Some(19120), None)));
    assert!(!tick.stop);
}

#[test]
fn scan_stops_when_its_time_is_up() {
    let mut scanner = Scanner::new(&Cli { until_data: false, duration: 60 }, 10_000);
    assert!(!scanner.listen_for_signals(None, 70_999).stop);
    assert!(scanner.listen_for_signals(None, 71_000).stop);
    assert!(!scanner.listen_for_signals(None, 0).stop);
}

#[test]
fn scan_failures_are_described() {
    assert_eq!(ScanError::from_status(0), None);
    assert_eq!(ScanError::from_status(1), Some(ScanError::Recv));
    assert_eq!(ScanError::from_status(2), Some(ScanError::BadData));
    assert_eq!(ScanError::from_status(3), Some(ScanError::SetSockOpt));
    assert_eq!(ScanError::from_status(4), Some(ScanError::Bind));
    assert_eq!(ScanError::from_status(5), Some(ScanError::HciLeSetScanParameters));
    assert_eq!(ScanError::from_status(6), Some(ScanError::HciLeSetScanEnable));
    assert_eq!(ScanError::from_status(7), Some(ScanError::HciLeSetScanDisable));
    assert_eq!(ScanError::from_status(8), Some(ScanError::Open));
    assert_eq!(ScanError::from_status(9), Some(ScanError::Context));
    assert_eq!(ScanError::from_status(-1), Some(ScanError::Context));

    assert_eq!(ScanError::Recv.to_string("No such device"), "recv() No such device");
    assert_eq!(ScanError::Context.to_string("x"), "bluetooth context x");
    assert_eq!(ScanError::Bind.to_string("x"), "bind() x");
    assert_eq!(ScanError::SetSockOpt.to_string("x"), "setsockopt() x");
    assert_eq!(
        ScanError::HciLeSetScanParameters.to_string("x"),
        "hci_le_set_scan_parameters() x"
    );
    assert_eq!(ScanError::HciLeSetScanEnable.to_string("x"), "hci_le_set_scan_enable() x");
    assert_eq!(ScanError::HciLeSetScanDisable.to_string("x"), "hci_le_set_scan_disable() x");
    assert_eq!(ScanError::BadData.to_string("x"), "Received unexpected BTLE data ");
    assert_eq!(ScanError::Open.to_string("x"), "open() ");
}

#[test]
fn commands_name_their_sensor() {
    let cmd = Command::Scan { duration_sec: 10 };
    assert_eq!(cmd.addr(), None);
    assert_eq!(cmd.search_timeout_ms(), 10_000);
    assert_eq!(Command::Scan { duration_sec: 255 }.search_timeout_ms(), 255_000);
    let cmd = Command::History {
        addr: "AA".to_string(),
        from: None,
        to: Some(3),
        page: None,
        clear: false,
    };
    assert_eq!(cmd.addr(), Some(&"AA".to_string()));
    assert_eq!(cmd.search_timeout_ms(), 60_000);
    for cmd in [
        Command::Read { addr: "BB".to_string() },
        Command::Blink { addr: "BB".to_string() },
        Command::HistoryCount { addr: "BB".to_string() },
        Command::HistoryClear { addr: "BB".to_string() },
    ] {
        assert_eq!(cmd.addr(), Some(&"BB".to_string()));
        assert_eq!(cmd.search_timeout_ms(), 60_000);
    }
    let opts = CmdOpts { json: true, no_headers: false, cmd: Command::Scan { duration_sec: 1 } };
    assert!(opts.json && !opts.no_headers);
    let cli = MifloraCli { debug: false, address: None, name: None, blink: true, realtime: false };
    assert!(cli.blink && !cli.realtime && !cli.debug);
}

fn with_sensor(service_uuid: &str, characteristics: &[&str]) -> BluezManager {
    let mut manager = BluezManager::new();
    manager.add_interfaces(
        "/dev/service0".to_string(),
        single_interface(
            "org.bluez.GattService1",
            vec![("UUID", string_value("generic")), ("Device", string_value("/dev"))],
        ),
    );
    manager.add_interfaces(
        "/dev/service1".to_string(),
        single_interface(
            "org.bluez.GattService1",
            vec![("UUID", string_value(service_uuid)), ("Device", string_value("/dev"))],
        ),
    );
    manager.add_interfaces(
        "/other/service1".to_string(),
        single_interface(
            "org.bluez.GattService1",
            vec![("UUID", string_value(service_uuid)), ("Device", string_value("/other"))],
        ),
    );
    for (i, uuid) in characteristics.iter().enumerate() {
        manager.add_interfaces(
            format!("/dev/service1/char{}", i),
            single_interface(
                "org.bluez.GattCharacteristic1",
                vec![("UUID", string_value(uuid)), ("Service", string_value("/dev/service1"))],
            ),
        );
        manager.add_interfaces(
            format!("/other/service1/char{}", i),
            single_interface(
                "org.bluez.GattCharacteristic1",
                vec![("UUID", string_value(uuid)), ("Service", string_value("/other/service1"))],
            ),
        );
    }
    manager
}

const DATA_SERVICE: &str = "00001204-0000-1000-8000-00805f9b34fb";
const FIRMWARE: &str = "00001a02-0000-1000-8000-00805f9b34fb";
const DEVICE_MODE: &str = "00001a00-0000-1000-8000-00805f9b34fb";
const DATA: &str = "00001a01-0000-1000-8000-00805f9b34fb";

#[test]
fn data_service_is_looked_up() {
    let sensor = Miflora::new("/dev".to_string());
    let manager = with_sensor(DATA_SERVICE, &[DATA, FIRMWARE, DEVICE_MODE]);
    let found = sensor.connect(&manager).unwrap();
    assert_eq!(found.device_objpath, "/dev");
    assert_eq!(found.data_objpath, "/dev/service1/char0");
    assert_eq!(found.firmware_objpath, "/dev/service1/char1");
    assert_eq!(found.device_mode_objpath, "/dev/service1/char2");

    let manager = with_sensor("something else", &[DATA, FIRMWARE, DEVICE_MODE]);
    assert!(matches!(sensor.connect(&manager), Err(AppError::CannotFindDataServiceUuid)));
    let manager = with_sensor(DATA_SERVICE, &[DATA, DEVICE_MODE]);
    assert!(matches!(
        sensor.connect(&manager),
        Err(AppError::CantFindFirmwareCharacteristicUuid)
    ));
    let manager = with_sensor(DATA_SERVICE, &[DATA, FIRMWARE]);
    assert!(matches!(
        sensor.connect(&manager),
        Err(AppError::CantFindDeviceModeCharacteristicUuid)
    ));
    let manager = with_sensor(DATA_SERVICE, &[FIRMWARE, DEVICE_MODE]);
    assert!(matches!(sensor.connect(&manager), Err(AppError::CantFindDataCharacteristicUuid)));
    assert!(matches!(
        sensor.connect(&BluezManager::new()),
        Err(AppError::CannotFindDataServiceUuid)
    ));
}

#[test]
fn objects_are_listed_by_interface() {
    let manager = with_sensor(DATA_SERVICE, &[DATA, FIRMWARE, DEVICE_MODE]);
    let mut services =
        get_managed_objects_with_interface(&manager, "org.bluez.GattService1", "", "");
    services.sort();
    assert_eq!(services, vec!["/dev/service0", "/dev/service1", "/other/service1"]);
    let mut services =
        get_managed_objects_with_interface(&manager, "org.bluez.GattService1", "/dev", "Device");
    services.sort();
    assert_eq!(services, vec!["/dev/service0", "/dev/service1"]);
    let characteristics = get_managed_objects_with_interface(
        &manager,
        "org.bluez.GattCharacteristic1",
        "/other/service1",
        "Service",
    );
    assert_eq!(characteristics.len(), 3);
    assert!(get_managed_objects_with_interface(&manager, "org.bluez.Adapter1", "", "").is_empty());

    assert_eq!(
        get_property(&manager, "org.bluez.GattService1", "/dev/service1", "UUID")
            .and_then(|v| v.as_str()),
        Some(DATA_SERVICE)
    );
    assert!(get_property(&manager, "org.bluez.GattService1", "/dev/service1", "Name").is_none());
    assert!(get_property(&manager, "org.bluez.Device1", "/dev/service1", "UUID").is_none());
    assert!(get_property(&manager, "org.bluez.GattService1", "/nowhere", "UUID").is_none());

    assert_eq!(get_adapter(&manager), None);
    let mut manager = manager;
    manager.add_interfaces("/org/bluez/hci0".to_string(), single_interface("org.bluez.Adapter1", vec![]));
    assert_eq!(get_adapter(&manager), Some("/org/bluez/hci0".to_string()));
}

#[test]
fn report_is_made_of_three_readouts() {
    let data = [0xe6, 0x00, 0x00, 0x2a, 0x01, 0x00, 0x00, 0x17, 0x3c, 0x02];
    let firmware = [0x64, 0x27, b'3', b'.', b'2', b'.', b'1'];
    let report =
        ConnectedMiflora::realtime("Flower care", "C4:7C", 99, &data, &firmware, &[1, 2, 3, 15, 16])
            .unwrap();
    assert_eq!(report.source, "hat-miflora");
    assert_eq!(report.name, "Flower care");
    assert_eq!(report.address, "C4:7C");
    assert_eq!(report.created_at, 99);
    assert_eq!(report.temperature, 230);
    assert_eq!(report.lux, 298);
    assert_eq!(report.moisture, 23);
    assert_eq!(report.conductivity, 572);
    assert_eq!(report.battery, 100);
    assert_eq!(report.version, "3.2.1");
    assert_eq!(report.serial, "0102030f10");

    let report = ConnectedMiflora::realtime("", "", 0, &data, &firmware, &[0xab, 0xcd, 0xef, 0x09])
        .unwrap();
    assert_eq!(report.serial, "abcdef09");
    let report = ConnectedMiflora::realtime("", "", 0, &data, &firmware, &[]).unwrap();
    assert_eq!(report.serial, "");
}

#[test]
fn report_fails_on_the_first_bad_readout() {
    let data = [0xe6, 0x00, 0x00, 0x2a, 0x01, 0x00, 0x00, 0x17, 0x3c, 0x02];
    let firmware = [0x64, 0x27, b'3', b'.', b'2', b'.', b'1'];
    let fails = |data: &[u8], firmware: &[u8]| {
        ConnectedMiflora::realtime("n", "a", 0, data, firmware, &[]).err().unwrap()
    };
    assert!(matches!(fails(&data[..0], &firmware), AppError::ParsingTemperatureError));
    assert!(matches!(fails(&data[..1], &firmware), AppError::ParsingTemperatureError));
    assert!(matches!(fails(&data[..2], &firmware), AppError::ParsingUnknownError));
    assert!(matches!(fails(&data[..3], &firmware), AppError::ParsingLuxError));
    assert!(matches!(fails(&data[..6], &firmware), AppError::ParsingLuxError));
    assert!(matches!(fails(&data[..7], &firmware), AppError::ParsingMoistureError));
    assert!(matches!(fails(&data[..8], &firmware), AppError::ParsingConductivityError));
    assert!(matches!(fails(&data[..9], &firmware), AppError::ParsingConductivityError));
    assert!(matches!(fails(&data, &firmware[..6]), AppError::UnexpectedFirmwareDataLength));
    assert!(matches!(
        fails(&data, &[0x64, 0x27, b'3', b'.', b'2', b'.', b'1', 0]),
        AppError::UnexpectedFirmwareDataLength
    ));
    assert!(matches!(
        fails(&data, &[0x64, 0x27, 0xff, b'.', b'2', b'.', b'1']),
        AppError::ReadingMifloraVersionError
    ));
    // the realtime readout is looked at first
    assert!(matches!(fails(&data[..1], &firmware[..1]), AppError::ParsingTemperatureError));

    assert_eq!(
        ConnectedMiflora::realtime_values(&data).ok(),
        Some(RealtimeValues { temperature: 230, lux: 298, moisture: 23, conductivity: 572 })
    );
}

#[test]
fn device_mode_is_confirmed() {
    assert!(ConnectedMiflora::set_device_mode(&[0xa0, 0x1f], &[0xa0, 0x1f]).is_ok());
    assert!(matches!(
        ConnectedMiflora::set_device_mode(&[0xa0, 0x1f], &[0xa0, 0x1e]),
        Err(AppError::DBusDeviceModeConfirmError)
    ));
    assert!(matches!(
        ConnectedMiflora::set_device_mode(&[0xa0, 0x1f], &[0xa0]),
        Err(AppError::DBusDeviceModeConfirmError)
    ));
    assert!(matches!(
        ConnectedMiflora::blink(AppError::DBusDeviceModeConfirmError),
        AppError::BlinkError(inner) if matches!(*inner, AppError::DBusDeviceModeConfirmError)
    ));
    let c = ConnectedMiflora::new("/d", "/f", "/m", "/x");
    assert_eq!(
        (c.device_objpath.as_str(), c.firmware_objpath.as_str()),
        ("/d", "/f")
    );
    assert_eq!((c.device_mode_objpath.as_str(), c.data_objpath.as_str()), ("/m", "/x"));
}
