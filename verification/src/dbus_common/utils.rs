//! Objects of the broker and the questions asked of them.

use super::value::Value;
use crate::miflora::dbus_bluez::BluezManager;
use crate::str_map::StrMap;
use crate::text::views_of;
use vstd::prelude::*;

verus! {

/// The name under which the Bluetooth service is reached.
pub const SERVICE_NAME: &'static str = "org.bluez";

/// The interface of a Bluetooth adapter.
pub const ADAPTER_INTERFACE: &'static str = "org.bluez.Adapter1";

/// The interface of a remote Bluetooth device.
pub const DEVICE_INTERFACE: &'static str = "org.bluez.Device1";

/// The properties of one interface of an object, by name.
pub type PropertyBag = StrMap<Value>;

/// The interfaces of one object, by name.
pub type DBusObject = StrMap<PropertyBag>;

/// An object as a mathematical value: its property bags by interface.
pub type ObjectView = Map<Seq<char>, PropertyBag>;

/// A question asked of an object.
#[derive(Debug)]
pub enum Query {
    /// The object has the interface.
    HasInterface { interface: String },
    /// The object has the interface, and the property is the string.
    PropertyIs { interface: String, property: String, value: String },
    /// The object has the interface, and the property is a list that holds
    /// the string.
    PropertyHolds { interface: String, property: String, value: String },
}

/// The object has the interface, and its property is the string `value`.
pub open spec fn property_is(
    object: ObjectView,
    interface: Seq<char>,
    property: Seq<char>,
    value: Seq<char>,
) -> bool {
    object.contains_key(interface) && object[interface]@.contains_key(property)
        && object[interface]@[property].is_str(value)
}

/// The object has the interface, and its property is a list that holds the
/// string `value`.
pub open spec fn property_holds(
    object: ObjectView,
    interface: Seq<char>,
    property: Seq<char>,
    value: Seq<char>,
) -> bool {
    object.contains_key(interface) && object[interface]@.contains_key(property)
        && object[interface]@[property].holds_str(value)
}

/// The answer of an object to a question.
pub open spec fn satisfies(object: ObjectView, query: Query) -> bool {
    match query {
        Query::HasInterface { interface } => object.contains_key(interface@),
        Query::PropertyIs { interface, property, value } => property_is(
            object,
            interface@,
            property@,
            value@,
        ),
        Query::PropertyHolds { interface, property, value } => property_holds(
            object,
            interface@,
            property@,
            value@,
        ),
    }
}

/// Tells whether the object has the interface with the property being the
/// string `value`.
pub fn has_property(object: &DBusObject, interface: &str, property: &str, value: &str) -> (r:
    bool)
    ensures
        r == property_is(object@, interface@, property@, value@),
{
    match object.get(interface) {
        Some(bag) => match bag.get(property) {
            Some(found) => found.equals_str(value),
            None => false,
        },
        None => false,
    }
}

/// Tells whether the object has the interface with the property being a
/// list that holds the string `value`.
pub fn has_property_holding(
    object: &DBusObject,
    interface: &str,
    property: &str,
    value: &str,
) -> (r: bool)
    ensures
        r == property_holds(object@, interface@, property@, value@),
{
    match object.get(interface) {
        Some(bag) => match bag.get(property) {
            Some(found) => found.contains_str(value),
            None => false,
        },
        None => false,
    }
}

/// Asks an object a question.
pub fn answer(object: &DBusObject, query: &Query) -> (r: bool)
    ensures
        r == satisfies(object@, *query),
{
    match query {
        Query::HasInterface { interface } => object.contains_key(interface.as_str()),
        Query::PropertyIs { interface, property, value } => has_property(
            object,
            interface.as_str(),
            property.as_str(),
            value.as_str(),
        ),
        Query::PropertyHolds { interface, property, value } => has_property_holding(
            object,
            interface.as_str(),
            property.as_str(),
            value.as_str(),
        ),
    }
}

/// What `get_managed_objects_with_interface` asks of an object: that it has
/// the interface, where no path or no property is named; else that the
/// property of that interface is the path.
pub open spec fn passes_interface_filter(
    object: ObjectView,
    requested_interface: Seq<char>,
    requested_path: Seq<char>,
    requested_property: Seq<char>,
) -> bool {
    if requested_path.len() == 0 || requested_property.len() == 0 {
        object.contains_key(requested_interface)
    } else {
        property_is(object, requested_interface, requested_property, requested_path)
    }
}

/// The question that `get_managed_objects_with_interface` asks.
pub fn interface_query(
    requested_interface: &str,
    requested_path: &str,
    requested_property: &str,
) -> (r: Query)
    ensures
        forall|object: ObjectView| #[trigger]
            satisfies(object, r) == passes_interface_filter(
                object,
                requested_interface@,
                requested_path@,
                requested_property@,
            ),
{
    if requested_path.is_empty() || requested_property.is_empty() {
        Query::HasInterface { interface: requested_interface.to_owned() }
    } else {
        Query::PropertyIs {
            interface: requested_interface.to_owned(),
            property: requested_property.to_owned(),
            value: requested_path.to_owned(),
        }
    }
}

/// The paths of the objects known now that have the interface
/// `requested_interface`, each once; where a path and a property are named,
/// only of those whose property is the path.
pub fn get_managed_objects_with_interface(
    manager: &BluezManager,
    requested_interface: &str,
    requested_path: &str,
    requested_property: &str,
) -> (r: Vec<String>)
    ensures
        views_of(r@).no_duplicates(),
        forall|path: Seq<char>|
            views_of(r@).contains(path) <==> manager@.contains_key(path)
                && passes_interface_filter(
                manager@[path],
                requested_interface@,
                requested_path@,
                requested_property@,
            ),
{
    let query = interface_query(requested_interface, requested_path, requested_property);
    let found = manager.find_objects(&query);
    proof {
        assert forall|path: Seq<char>|
            views_of(found@).contains(path) <==> manager@.contains_key(path)
                && passes_interface_filter(
                manager@[path],
                requested_interface@,
                requested_path@,
                requested_property@,
            ) by {
            if manager@.contains_key(path) {
                assert(satisfies(manager@[path], query) == passes_interface_filter(
                    manager@[path],
                    requested_interface@,
                    requested_path@,
                    requested_property@,
                ));
            }
        }
    }
    found
}

/// The value of a property of the object at `object_path`, if there is such
/// an object, it has the interface, and the interface has the property.
pub open spec fn property_of(
    objects: Map<Seq<char>, ObjectView>,
    interface: Seq<char>,
    object_path: Seq<char>,
    property_name: Seq<char>,
) -> Option<Value> {
    if objects.contains_key(object_path) && objects[object_path].contains_key(interface)
        && objects[object_path][interface]@.contains_key(property_name) {
        Some(objects[object_path][interface]@[property_name])
    } else {
        None
    }
}

/// The value of a property of an object known now.
pub fn get_property<'a>(
    manager: &'a BluezManager,
    interface: &str,
    object_path: &str,
    property_name: &str,
) -> (r: Option<&'a Value>)
    ensures
        match r {
            Some(value) => property_of(manager@, interface@, object_path@, property_name@)
                == Some(*value),
            None => property_of(manager@, interface@, object_path@, property_name@) is None,
        },
{
    match manager.get(object_path) {
        Some(object) => match object.get(interface) {
            Some(bag) => bag.get(property_name),
            None => None,
        },
        None => None,
    }
}

/// The path of an adapter known now, if there is one.
pub fn get_adapter(manager: &BluezManager) -> (r: Option<String>)
    ensures
        match r {
            Some(path) => manager@.contains_key(path@) && manager@[path@].contains_key(
                ADAPTER_INTERFACE@,
            ),
            None => forall|path: Seq<char>| #[trigger]
                manager@.contains_key(path) ==> !manager@[path].contains_key(ADAPTER_INTERFACE@),
        },
{
    let query = Query::HasInterface { interface: ADAPTER_INTERFACE.to_owned() };
    let found = manager.find_object(&query);
    proof {
        if found is None {
            assert forall|path: Seq<char>| #[trigger]
                manager@.contains_key(path) implies !manager@[path].contains_key(
                ADAPTER_INTERFACE@,
            ) by {
                if manager@[path].contains_key(ADAPTER_INTERFACE@) {
                    assert(manager@.contains_key(path) && satisfies(manager@[path], query));
                }
            }
        } else {
            assert(satisfies(manager@[found->Some_0@], query));
        }
    }
    found
}

} // verus!
