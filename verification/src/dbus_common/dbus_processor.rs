//! Picks the peripherals of one kind out of the devices that the broker
//! knows.

use super::utils::PropertyBag;
use super::value::Value;
use crate::text::views_of;
use vstd::prelude::*;

verus! {

/// Looks for devices that offer the service `root_service_uuid`.
#[derive(Debug)]
pub struct DbusProcessor {
    pub root_service_uuid: String,
    pub debug: bool,
}

/// The properties are those of a device that offers the service `uuid`:
/// it has an address, a name, and a list of services that holds `uuid`.
pub open spec fn is_applicable(properties: Map<Seq<char>, Value>, uuid: Seq<char>) -> bool {
    &&& properties.contains_key("Address"@)
    &&& properties.contains_key("Name"@)
    &&& properties.contains_key("UUIDs"@)
    &&& properties["UUIDs"@].holds_str(uuid)
}

/// The paths among the first `upto` devices whose properties are those of
/// a device that offers the service `uuid`, in their order.
pub open spec fn applicable_paths(
    devices: Seq<(String, PropertyBag)>,
    uuid: Seq<char>,
    upto: int,
) -> Seq<Seq<char>>
    decreases upto,
{
    if upto <= 0 {
        Seq::empty()
    } else {
        let before = applicable_paths(devices, uuid, upto - 1);
        if is_applicable(devices[upto - 1].1@, uuid) {
            before.push(devices[upto - 1].0@)
        } else {
            before
        }
    }
}

impl DbusProcessor {
    /// Tells whether the properties are those of a device that offers the
    /// service looked for.
    pub fn probe_device(&self, properties: &PropertyBag) -> (r: bool)
        ensures
            r == is_applicable(properties@, self.root_service_uuid@),
    {
        if !properties.contains_key("Address") {
            return false;
        }
        if !properties.contains_key("Name") {
            return false;
        }
        match properties.get("UUIDs") {
            Some(uuids) => uuids.contains_str(self.root_service_uuid.as_str()),
            None => false,
        }
    }

    /// The paths of the known devices that offer the service looked for.
    /// Each device is given by its path and the properties of its device
    /// interface.
    pub fn process_known_devices(&self, devices: &Vec<(String, PropertyBag)>) -> (r: Vec<String>)
        ensures
            views_of(r@) == applicable_paths(
                devices@,
                self.root_service_uuid@,
                devices@.len() as int,
            ),
    {
        let mut found: Vec<String> = Vec::new();
        let mut i: usize = 0;
        assert(views_of(found@) =~= Seq::<Seq<char>>::empty());
        while i < devices.len()
            invariant
                i <= devices@.len(),
                views_of(found@) == applicable_paths(devices@, self.root_service_uuid@, i as int),
            decreases devices@.len() - i,
        {
            let ghost before = views_of(found@);
            if self.probe_device(&devices[i].1) {
                found.push(devices[i].0.clone());
                assert(views_of(found@) =~= before.push(devices@[i as int].0@));
            }
            i = i + 1;
        }
        found
    }
}

} // verus!
