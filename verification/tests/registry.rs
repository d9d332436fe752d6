use hat_ble::dbus_common::dbus_processor::DbusProcessor;
use hat_ble::dbus_common::utils::{
    answer, has_property, has_property_holding, interface_query, DBusObject, PropertyBag, Query,
};
use hat_ble::dbus_common::value::Value;
use hat_ble::miflora::dbus_bluez::{
    BluezManager, DBusFault, InterfaceSignal, TypedDbusError, TypedDbusErrorKind,
};
use hat_ble::miflora::search::{
    adapter_query, address_query, service_query, Search, SearchError, SearchEvent, SearchStep,
};
use hat_ble::str_map::StrMap;

const DEVICE: &str = "org.bluez.Device1";
const ADAPTER: &str = "org.bluez.Adapter1";
const CHARACTERISTIC: &str = "org.bluez.GattCharacteristic1";
const MIFLORA_SERVICE: &str = "0000fe95-0000-1000-8000-00805f9b34fb";

fn text(s: &str) -> Value {
    Value::Str(s.to_string())
}

fn bag(entries: Vec<(&str, Value)>) -> PropertyBag {
    let mut bag = StrMap::new();
    for (name, value) in entries {
        bag.insert(name.to_string(), value);
    }
    bag
}

fn object(interfaces: Vec<(&str, PropertyBag)>) -> DBusObject {
    let mut object = StrMap::new();
    for (name, properties) in interfaces {
        object.insert(name.to_string(), properties);
    }
    object
}

fn device(address: &str, uuids: Vec<&str>) -> DBusObject {
    object(vec![(
        DEVICE,
        bag(vec![
            ("Address", text(address)),
            ("Name", text("Flower care")),
            ("UUIDs", Value::Array(uuids.into_iter().map(text).collect())),
        ]),
    )])
}

fn added(path: &str, interfaces: DBusObject) -> InterfaceSignal {
    InterfaceSignal::Added { object: path.to_string(), interfaces }
}

fn removed(path: &str, names: Vec<&str>) -> InterfaceSignal {
    InterfaceSignal::Removed {
        object: path.to_string(),
        interfaces: names.into_iter().map(|n| n.to_string()).collect(),
    }
}

fn snapshot() -> BluezManager {
    let mut manager = BluezManager::new();
    manager.add_interfaces("/org/bluez/hci0".to_string(), object(vec![(ADAPTER, bag(vec![]))]));
    manager.add_interfaces(
        "/org/bluez/hci0/dev_1".to_string(),
        device("C4:7C:8D:00:00:01", vec![MIFLORA_SERVICE]),
    );
    manager.add_interfaces(
        "/org/bluez/hci0/dev_2".to_string(),
        device("C4:7C:8D:00:00:02", vec!["0000180a-0000-1000-8000-00805f9b34fb"]),
    );
    manager
}

#[test]
fn str_map_behaves_as_a_map() {
    let mut map: StrMap<u32> = StrMap::new();
    assert!(map.is_empty());
    assert_eq!(map.len(), 0);
    assert_eq!(map.insert("a".to_string(), 1), None);
    assert_eq!(map.insert("b".to_string(), 2), None);
    assert_eq!(map.insert("a".to_string(), 3), Some(1));
    assert_eq!(map.len(), 2);
    assert!(!map.is_empty());
    assert_eq!(map.get("a"), Some(&3));
    assert_eq!(map.get("b"), Some(&2));
    assert_eq!(map.get("c"), None);
    assert!(map.contains_key("b"));
    assert!(!map.contains_key("B"));
    assert_eq!(map.remove("c"), None);
    assert_eq!(map.remove("b"), Some(2));
    assert_eq!(map.len(), 1);
    assert_eq!(map.key_at(0), "a");
    assert_eq!(map.value_at(0), &3);

    let mut other: StrMap<u32> = StrMap::new();
    other.insert("a".to_string(), 10);
    other.insert("z".to_string(), 26);
    map.extend(other);
    assert_eq!(map.len(), 2);
    assert_eq!(map.get("a"), Some(&10));
    assert_eq!(map.get("z"), Some(&26));

    let mut seen = Vec::new();
    while let Some((key, value)) = map.pop() {
        seen.push((key, value));
    }
    seen.sort();
    assert_eq!(seen, vec![("a".to_string(), 10), ("z".to_string(), 26)]);
    assert!(map.is_empty());
    assert_eq!(map.pop(), None);
}

#[test]
fn values_are_told_apart() {
    assert_eq!(text("x").as_str(), Some("x"));
    assert_eq!(Value::U8(7).as_str(), None);
    assert_eq!(Value::Bool(true).as_bool(), Some(true));
    assert_eq!(Value::U8(7).as_u8(), Some(7));
    assert_eq!(Value::U16(7).as_u8(), None);
    assert_eq!(Value::U16(700).as_u16(), Some(700));
    assert_eq!(Value::U32(70_000).as_u32(), Some(70_000));
    assert_eq!(Value::I16(-70).as_i16(), Some(-70));
    assert_eq!(Value::Bytes(vec![1, 2]).as_bytes(), Some(&vec![1, 2]));
    assert_eq!(text("x").as_bytes(), None);
    assert_eq!(Value::Array(vec![]).as_iter().map(|v| v.len()), Some(0));
    assert!(text("x").as_iter().is_none());
    assert_eq!(Value::Dict(vec![(text("k"), Value::U8(1))]).as_dict().map(|v| v.len()), Some(1));
    assert!(Value::Array(vec![]).as_dict().is_none());

    assert!(text("abc").equals_str("abc"));
    assert!(!text("abc").equals_str("abd"));
    assert!(!text("abc").equals_str("ab"));
    assert!(!Value::U8(1).equals_str(""));
    let list = Value::Array(vec![Value::U8(1), text("a"), text("b")]);
    assert!(list.contains_str("a"));
    assert!(list.contains_str("b"));
    assert!(!list.contains_str("c"));
    assert!(!text("a").contains_str("a"));
}

#[test]
fn questions_are_answered() {
    let dev = device("C4:7C:8D:00:00:01", vec![MIFLORA_SERVICE]);
    assert!(has_property(&dev, DEVICE, "Address", "C4:7C:8D:00:00:01"));
    assert!(!has_property(&dev, DEVICE, "Address", "C4:7C:8D:00:00:02"));
    assert!(!has_property(&dev, ADAPTER, "Address", "C4:7C:8D:00:00:01"));
    assert!(!has_property(&dev, DEVICE, "Alias", "C4:7C:8D:00:00:01"));
    assert!(!has_property(&dev, DEVICE, "UUIDs", MIFLORA_SERVICE));
    assert!(has_property_holding(&dev, DEVICE, "UUIDs", MIFLORA_SERVICE));
    assert!(!has_property_holding(&dev, DEVICE, "Address", "C4:7C:8D:00:00:01"));

    assert!(answer(&dev, &Query::HasInterface { interface: DEVICE.to_string() }));
    assert!(!answer(&dev, &adapter_query()));
    assert!(answer(&dev, &address_query("C4:7C:8D:00:00:01")));
    assert!(!answer(&dev, &address_query("C4:7C:8D:00:00:02")));
    assert!(answer(&dev, &service_query(MIFLORA_SERVICE)));
    assert!(!answer(&dev, &service_query("0000180a-0000-1000-8000-00805f9b34fb")));

    assert!(answer(&dev, &interface_query(DEVICE, "", "")));
    assert!(answer(&dev, &interface_query(DEVICE, "Flower care", "")));
    assert!(answer(&dev, &interface_query(DEVICE, "", "Name")));
    assert!(answer(&dev, &interface_query(DEVICE, "Flower care", "Name")));
    assert!(!answer(&dev, &interface_query(DEVICE, "Flower power", "Name")));
    assert!(!answer(&dev, &interface_query(ADAPTER, "", "")));
}

#[test]
fn added_interfaces_are_merged() {
    let mut manager = BluezManager::new();
    assert!(manager.get("/a").is_none());
    manager.add_interfaces(
        "/a".to_string(),
        object(vec![("i1", bag(vec![("p", Value::U8(1)), ("q", Value::U8(2))]))]),
    );
    manager.add_interfaces(
        "/a".to_string(),
        object(vec![("i1", bag(vec![("p", Value::U8(9))])), ("i2", bag(vec![]))]),
    );
    let a = manager.get("/a").unwrap();
    assert_eq!(a.len(), 2);
    // the properties of an interface are replaced as a whole
    let i1 = a.get("i1").unwrap();
    assert_eq!(i1.len(), 1);
    assert_eq!(i1.get("p").unwrap().as_u8(), Some(9));
    assert!(i1.get("q").is_none());
    assert!(a.get("i2").unwrap().is_empty());
}

#[test]
fn added_without_interfaces_creates_nothing() {
    let mut manager = BluezManager::new();
    manager.add_interfaces("/a".to_string(), object(vec![]));
    assert!(manager.get("/a").is_none());
    let affected = manager.process_interface_signal(added("/a", object(vec![])));
    assert_eq!(affected, None);
    assert!(manager.get("/a").is_none());
}

#[test]
fn removing_the_last_interface_removes_the_object() {
    let mut manager = BluezManager::new();
    manager.add_interfaces(
        "/a".to_string(),
        object(vec![("i1", bag(vec![])), ("i2", bag(vec![]))]),
    );
    manager.remove_interfaces("/a", &vec!["i1".to_string()]);
    let a = manager.get("/a").unwrap();
    assert_eq!(a.len(), 1);
    assert!(a.contains_key("i2"));
    manager.remove_interfaces("/a", &vec!["i3".to_string()]);
    assert!(manager.get("/a").is_some());
    manager.remove_interfaces("/b", &vec!["i2".to_string()]);
    assert!(manager.get("/a").is_some());
    manager.remove_interfaces("/a", &vec!["i2".to_string(), "i2".to_string()]);
    assert!(manager.get("/a").is_none());

    manager.add_interfaces(
        "/a".to_string(),
        object(vec![("i1", bag(vec![])), ("i2", bag(vec![]))]),
    );
    assert_eq!(manager.process_interface_signal(removed("/a", vec!["i1", "i2", "i3"])), None);
    assert!(manager.get("/a").is_none());
}

#[test]
fn signals_report_the_object_they_changed() {
    let mut manager = BluezManager::new();
    let affected = manager.process_interface_signal(added("/a", object(vec![("i", bag(vec![]))])));
    assert_eq!(affected, Some("/a".to_string()));
    let affected = manager.process_interface_signal(removed("/a", vec!["x"]));
    assert_eq!(affected, None);
    assert!(manager.get("/a").is_some());
}

#[test]
fn drain_takes_signals_in_their_order() {
    let mut manager = BluezManager::new();
    manager.drain(vec![
        added("/a", object(vec![("i", bag(vec![("p", Value::U8(1))]))])),
        added("/b", object(vec![("i", bag(vec![]))])),
        added("/a", object(vec![("i", bag(vec![("p", Value::U8(2))]))])),
        removed("/b", vec!["i"]),
        added("/c", object(vec![("j", bag(vec![]))])),
    ]);
    assert_eq!(manager.get("/a").unwrap().get("i").unwrap().get("p").unwrap().as_u8(), Some(2));
    assert!(manager.get("/b").is_none());
    assert!(manager.get("/c").is_some());
    manager.drain(vec![]);
    assert!(manager.get("/c").is_some());
}

#[test]
fn snapshot_is_searched() {
    let manager = snapshot();
    assert_eq!(manager.find_adapter(), Ok("/org/bluez/hci0".to_string()));
    assert_eq!(
        manager.find_by_address("C4:7C:8D:00:00:02"),
        Ok("/org/bluez/hci0/dev_2".to_string())
    );
    assert_eq!(manager.find_by_address("C4:7C:8D:00:00:03"), Err(SearchError::DeviceNotFound));
    assert_eq!(manager.scan(MIFLORA_SERVICE), vec!["/org/bluez/hci0/dev_1".to_string()]);
    assert!(manager.scan("00000000-0000-1000-8000-00805f9b34fb").is_empty());
    assert_eq!(BluezManager::new().find_adapter(), Err(SearchError::AdapterNotFound));

    let mut all = manager.find_objects(&Query::HasInterface { interface: DEVICE.to_string() });
    all.sort();
    assert_eq!(
        all,
        vec!["/org/bluez/hci0/dev_1".to_string(), "/org/bluez/hci0/dev_2".to_string()]
    );
    assert_eq!(manager.find_object(&Query::HasInterface { interface: "none".to_string() }), None);
}

#[test]
fn discovery_is_remembered() {
    let mut manager = snapshot();
    assert_eq!(manager.adapter(), None);
    let adapter = manager.find_adapter().unwrap();
    manager.start_discovery(adapter);
    assert_eq!(manager.adapter(), Some(&"/org/bluez/hci0".to_string()));
    assert!(manager.get("/org/bluez/hci0/dev_1").is_some());
}

#[test]
fn find_returns_at_once_for_a_known_object() {
    let manager = snapshot();
    let (search, step) =
        Search::begin(&manager, address_query("C4:7C:8D:00:00:01"), Some(60_000));
    assert_eq!(search.remaining_ms(), 60_000);
    match step {
        SearchStep::Found(path) => assert_eq!(path, "/org/bluez/hci0/dev_1"),
        other => panic!("{:?}", other),
    }
}

#[test]
fn find_waits_for_the_object_to_appear() {
    let mut manager = snapshot();
    let (mut search, step) =
        Search::begin(&manager, address_query("C4:7C:8D:00:00:03"), Some(1000));
    assert!(matches!(step, SearchStep::Wait(1000)));

    // a signal about something else
    let step = search.advance(
        &mut manager,
        SearchEvent::Signal {
            signal: added("/org/bluez/hci0/dev_9", device("00:00:00:00:00:09", vec![])),
            waited_ms: 300,
        },
    );
    assert!(matches!(step, SearchStep::Wait(700)));
    assert!(manager.get("/org/bluez/hci0/dev_9").is_some());

    // a removal never finds anything
    let step = search.advance(
        &mut manager,
        SearchEvent::Signal {
            signal: removed("/org/bluez/hci0/dev_9", vec![DEVICE]),
            waited_ms: 100,
        },
    );
    assert!(matches!(step, SearchStep::Wait(600)));
    assert!(manager.get("/org/bluez/hci0/dev_9").is_none());

    // the device appears
    let step = search.advance(
        &mut manager,
        SearchEvent::Signal {
            signal: added("/org/bluez/hci0/dev_3", device("C4:7C:8D:00:00:03", vec![])),
            waited_ms: 100,
        },
    );
    match step {
        SearchStep::Found(path) => assert_eq!(path, "/org/bluez/hci0/dev_3"),
        other => panic!("{:?}", other),
    }
    assert_eq!(search.remaining_ms(), 500);
}

#[test]
fn find_gives_up_when_the_wait_brings_nothing() {
    let mut manager = snapshot();
    let (mut search, step) =
        Search::begin(&manager, address_query("C4:7C:8D:00:00:03"), Some(1000));
    assert_eq!(step.outcome(), None);
    let step = search.advance(&mut manager, SearchEvent::Quiet);
    assert!(matches!(step, SearchStep::TimedOut));
    assert_eq!(step.outcome(), Some(Err(SearchError::RegistryTimeout)));
    assert_eq!(SearchStep::Found("/x".to_string()).outcome(), Some(Ok("/x".to_string())));
    assert_eq!(search.remaining_ms(), 1000);
}

#[test]
fn find_gives_up_when_its_time_is_used_up() {
    let mut manager = snapshot();
    let (mut search, _) = Search::begin(&manager, address_query("C4:7C:8D:00:00:03"), Some(1000));
    let step = search.advance(
        &mut manager,
        SearchEvent::Signal {
            signal: added("/org/bluez/hci0/dev_8", device("00:00:00:00:00:08", vec![])),
            waited_ms: 999,
        },
    );
    assert!(matches!(step, SearchStep::Wait(1)));
    let step = search.advance(
        &mut manager,
        SearchEvent::Signal {
            signal: added("/org/bluez/hci0/dev_9", device("00:00:00:00:00:09", vec![])),
            waited_ms: 5000,
        },
    );
    assert!(matches!(step, SearchStep::TimedOut));
    assert_eq!(search.remaining_ms(), 0);
    // the signal was taken in all the same
    assert!(manager.get("/org/bluez/hci0/dev_9").is_some());

    // an object that appears with the last of the time is still found
    let (mut search, _) = Search::begin(&manager, address_query("C4:7C:8D:00:00:03"), Some(10));
    let step = search.advance(
        &mut manager,
        SearchEvent::Signal {
            signal: added("/org/bluez/hci0/dev_3", device("C4:7C:8D:00:00:03", vec![])),
            waited_ms: 10,
        },
    );
    assert!(matches!(step, SearchStep::Found(_)));
}

#[test]
fn find_without_time_only_polls() {
    let manager = snapshot();
    let (search, step) = Search::begin(&manager, address_query("nobody"), None);
    assert!(matches!(step, SearchStep::Wait(0)));
    assert_eq!(search.remaining_ms(), 0);
}

#[test]
fn failures_are_sorted_by_name() {
    assert_eq!(
        TypedDbusErrorKind::from_name(Some("org.freedesktop.DBus.Error.InvalidArgs")),
        TypedDbusErrorKind::InvalidArgs
    );
    assert_eq!(
        TypedDbusErrorKind::from_name(Some("org.freedesktop.DBus.Error.AccessDenied")),
        TypedDbusErrorKind::AccessDenied
    );
    assert_eq!(
        TypedDbusErrorKind::from_name(Some("org.freedesktop.DBus.Error.NoReply")),
        TypedDbusErrorKind::NoReply
    );
    assert_eq!(
        TypedDbusErrorKind::from_name(Some("org.bluez.Error.Failed")),
        TypedDbusErrorKind::Failed
    );
    assert_eq!(
        TypedDbusErrorKind::from_name(Some("org.bluez.Error.NotReady")),
        TypedDbusErrorKind::Other
    );
    assert_eq!(TypedDbusErrorKind::from_name(None), TypedDbusErrorKind::Other);

    let typed = TypedDbusError::from(DBusFault {
        name: Some("org.freedesktop.DBus.Error.NoReply".to_string()),
        message: Some("timed out".to_string()),
    });
    assert_eq!(typed.kind, TypedDbusErrorKind::NoReply);
    assert_eq!(typed.cause.message.as_deref(), Some("timed out"));
    let typed = TypedDbusError::from(DBusFault { name: None, message: None });
    assert_eq!(typed.kind, TypedDbusErrorKind::Other);
}

#[test]
fn known_devices_are_probed() {
    let processor = DbusProcessor { root_service_uuid: MIFLORA_SERVICE.to_string(), debug: false };
    let flora = bag(vec![
        ("Address", text("C4:7C:8D:00:00:01")),
        ("Name", text("Flower care")),
        ("UUIDs", Value::Array(vec![text("x"), text(MIFLORA_SERVICE)])),
    ]);
    assert!(processor.probe_device(&flora));
    let nameless = bag(vec![
        ("Address", text("C4:7C:8D:00:00:01")),
        ("UUIDs", Value::Array(vec![text(MIFLORA_SERVICE)])),
    ]);
    assert!(!processor.probe_device(&nameless));
    let other = bag(vec![
        ("Address", text("C4:7C:8D:00:00:01")),
        ("Name", text("Scale")),
        ("UUIDs", Value::Array(vec![text("x")])),
    ]);
    assert!(!processor.probe_device(&other));
    let odd = bag(vec![
        ("Address", text("C4:7C:8D:00:00:01")),
        ("Name", text("Scale")),
        ("UUIDs", text(MIFLORA_SERVICE)),
    ]);
    assert!(!processor.probe_device(&odd));

    let devices = vec![
        ("/dev_1".to_string(), flora),
        ("/dev_2".to_string(), other),
        (
            "/dev_3".to_string(),
            bag(vec![
                ("Address", text("C4:7C:8D:00:00:03")),
                ("Name", text("Flower care")),
                ("UUIDs", Value::Array(vec![text(MIFLORA_SERVICE)])),
            ]),
        ),
    ];
    assert_eq!(
        processor.process_known_devices(&devices),
        vec!["/dev_1".to_string(), "/dev_3".to_string()]
    );
    let _ = CHARACTERISTIC;
}
