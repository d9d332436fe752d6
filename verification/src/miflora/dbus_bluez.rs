//! A local mirror of the broker's objects, kept up to date from the
//! broker's signals, and the search for an object in it.

use crate::dbus_common::utils::{answer, satisfies, DBusObject, ObjectView, Query};
use crate::str_map::StrMap;
use crate::text::{str_eq, views_of};
use vstd::prelude::*;

verus! {

pub const BLUEZ_SERVICE: &'static str = "org.bluez";

pub const BLUEZ_INTERFACE_DEVICE1: &'static str = "org.bluez.Device1";

pub const BLUEZ_INTERFACE_ADAPTER1: &'static str = "org.bluez.Adapter1";

pub const BLUEZ_GATT_CHARACTERISTIC_INTERFACE: &'static str = "org.bluez.GattCharacteristic1";

/// What the broker reports of a failed call.
#[derive(Debug)]
pub struct DBusFault {
    pub name: Option<String>,
    pub message: Option<String>,
}

/// A failed call, sorted by the name of its error.
#[derive(Debug)]
pub struct TypedDbusError {
    pub cause: DBusFault,
    pub kind: TypedDbusErrorKind,
}

/// The kinds of failure that are told apart.
#[derive(Clone, Copy, Debug, PartialEq, Eq, Structural)]
pub enum TypedDbusErrorKind {
    InvalidArgs,
    AccessDenied,
    NoReply,
    Failed,
    Other,
}

/// The kind of a failure with the error name `name`.
pub open spec fn kind_of(name: Option<Seq<char>>) -> TypedDbusErrorKind {
    match name {
        Some(n) => if n == "org.freedesktop.DBus.Error.InvalidArgs"@ {
            TypedDbusErrorKind::InvalidArgs
        } else if n == "org.freedesktop.DBus.Error.AccessDenied"@ {
            TypedDbusErrorKind::AccessDenied
        } else if n == "org.freedesktop.DBus.Error.NoReply"@ {
            TypedDbusErrorKind::NoReply
        } else if n == "org.bluez.Error.Failed"@ {
            TypedDbusErrorKind::Failed
        } else {
            TypedDbusErrorKind::Other
        },
        None => TypedDbusErrorKind::Other,
    }
}

/// The characters of a name that may be missing.
pub open spec fn name_view(name: Option<String>) -> Option<Seq<char>> {
    match name {
        Some(n) => Some(n@),
        None => None,
    }
}

impl TypedDbusErrorKind {
    /// The kind of a failure with the error name `name`.
    pub fn from_name(name: Option<&str>) -> (r: TypedDbusErrorKind)
        ensures
            r == kind_of(
                match name {
                    Some(n) => Some(n@),
                    None => None,
                },
            ),
    {
        match name {
            Some(n) => {
                if str_eq(n, "org.freedesktop.DBus.Error.InvalidArgs") {
                    TypedDbusErrorKind::InvalidArgs
                } else if str_eq(n, "org.freedesktop.DBus.Error.AccessDenied") {
                    TypedDbusErrorKind::AccessDenied
                } else if str_eq(n, "org.freedesktop.DBus.Error.NoReply") {
                    TypedDbusErrorKind::NoReply
                } else if str_eq(n, "org.bluez.Error.Failed") {
                    TypedDbusErrorKind::Failed
                } else {
                    TypedDbusErrorKind::Other
                }
            },
            None => TypedDbusErrorKind::Other,
        }
    }
}

impl TypedDbusError {
    /// Sorts a failure by the name of its error.
    pub fn from(cause: DBusFault) -> (r: TypedDbusError)
        ensures
            r.cause == cause,
            r.kind == kind_of(name_view(cause.name)),
    {
        let kind = match &cause.name {
            Some(n) => TypedDbusErrorKind::from_name(Some(n.as_str())),
            None => TypedDbusErrorKind::from_name(None),
        };
        TypedDbusError { cause, kind }
    }
}

/// A signal of the broker about an object's interfaces.
#[derive(Debug)]
#[allow(inconsistent_fields)]
pub enum InterfaceSignal {
    /// Interfaces were added to the object, with their properties.
    Added { object: String, interfaces: DBusObject },
    /// Interfaces were removed from the object.
    Removed { object: String, interfaces: Vec<String> },
}

/// The objects by path, each by its interfaces.
pub type Objects = Map<Seq<char>, ObjectView>;

/// The strings of a list, as a set.
pub open spec fn names_of(names: Seq<String>) -> Set<Seq<char>> {
    Set::new(|k: Seq<char>| exists|i: int| 0 <= i < names.len() && (#[trigger] names[i])@ == k)
}

/// The objects after `interfaces` were added to the object at `path`: each
/// takes the place of the interface of its name, the object is created
/// where it was missing, and an object never stays without interface.
pub open spec fn with_added(objects: Objects, path: Seq<char>, interfaces: ObjectView) -> Objects {
    let known: ObjectView = if objects.contains_key(path) {
        objects[path]
    } else {
        Map::empty()
    };
    let merged = known.union_prefer_right(interfaces);
    if merged == Map::<Seq<char>, crate::dbus_common::utils::PropertyBag>::empty() {
        objects
    } else {
        objects.insert(path, merged)
    }
}

/// The objects after the interfaces `names` were removed from the object
/// at `path`: the object goes with its last interface.
pub open spec fn with_removed(objects: Objects, path: Seq<char>, names: Set<Seq<char>>) -> Objects {
    if objects.contains_key(path) {
        let left = objects[path].remove_keys(names);
        if left == Map::<Seq<char>, crate::dbus_common::utils::PropertyBag>::empty() {
            objects.remove(path)
        } else {
            objects.insert(path, left)
        }
    } else {
        objects
    }
}

/// The objects after a signal.
pub open spec fn applied(objects: Objects, signal: InterfaceSignal) -> Objects {
    match signal {
        InterfaceSignal::Added { object, interfaces } => with_added(objects, object@, interfaces@),
        InterfaceSignal::Removed { object, interfaces } => with_removed(
            objects,
            object@,
            names_of(interfaces@),
        ),
    }
}

/// The object that a signal has changed and left in place: the one that
/// interfaces were added to.
pub open spec fn affected(objects: Objects, signal: InterfaceSignal) -> Option<Seq<char>> {
    match signal {
        InterfaceSignal::Added { object, interfaces } => if applied(objects, signal).contains_key(
            object@,
        ) {
            Some(object@)
        } else {
            None
        },
        InterfaceSignal::Removed { .. } => None,
    }
}

/// The objects after a run of signals, taken in their order.
pub open spec fn applied_all(objects: Objects, signals: Seq<InterfaceSignal>) -> Objects
    decreases signals.len(),
{
    if signals.len() == 0 {
        objects
    } else {
        applied(applied_all(objects, signals.drop_last()), signals.last())
    }
}

/// Some object answers the question with yes.
pub open spec fn some_match(objects: Objects, query: Query) -> bool {
    exists|path: Seq<char>| #[trigger] objects.contains_key(path) && satisfies(objects[path], query)
}

proof fn lemma_has_key<V>(m: Map<Seq<char>, V>)
    requires
        m != Map::<Seq<char>, V>::empty(),
    ensures
        exists|k: Seq<char>| m.contains_key(k),
{
    if forall|k: Seq<char>| !m.contains_key(k) {
        assert(m =~= Map::<Seq<char>, V>::empty());
    }
}

/// The mirror of the broker's objects.
pub struct BluezManager {
    objects: StrMap<DBusObject>,
    adapter: Option<String>,
}

impl BluezManager {
    #[verifier::type_invariant]
    spec fn no_bare_object(&self) -> bool {
        forall|path: Seq<char>| #[trigger]
            self.objects@.contains_key(path) ==> self.objects@[path]@ != Map::<
                Seq<char>,
                crate::dbus_common::utils::PropertyBag,
            >::empty()
    }

    /// The objects by path.
    pub closed spec fn view(&self) -> Objects {
        self.objects@.map_values(|o: DBusObject| o@)
    }

    /// The adapter on which discovery was started, if it was.
    pub closed spec fn discovering_on(&self) -> Option<String> {
        self.adapter
    }

    /// A mirror without objects.
    pub fn new() -> (r: BluezManager)
        ensures
            r@ == Map::<Seq<char>, ObjectView>::empty(),
            r.discovering_on() is None,
    {
        let r = BluezManager { objects: StrMap::new(), adapter: None };
        assert(r@ =~= Map::<Seq<char>, ObjectView>::empty());
        r
    }

    /// The object at `path`, if there is one.
    pub fn get(&self, path: &str) -> (r: Option<&DBusObject>)
        ensures
            match r {
                Some(object) => self@.contains_key(path@) && self@[path@] == object@,
                None => !self@.contains_key(path@),
            },
    {
        self.objects.get(path)
    }

    /// Adds interfaces to the object at `path`.
    pub fn add_interfaces(&mut self, path: String, interfaces: DBusObject)
        ensures
            final(self)@ == with_added(old(self)@, path@, interfaces@),
            final(self).discovering_on() == old(self).discovering_on(),
    {
        proof {
            use_type_invariant(&*self);
        }
        let mut objects: StrMap<DBusObject> = StrMap::new();
        core::mem::swap(&mut self.objects, &mut objects);
        let mut object = match objects.remove(path.as_str()) {
            Some(known) => known,
            None => StrMap::new(),
        };
        object.extend(interfaces);
        if !object.is_empty() {
            objects.insert(path, object);
        }
        proof {
            let before = old(self).objects@;
            if before.contains_key(path@) {
                let known = before[path@]@;
                assert(old(self)@[path@] == known);
                lemma_has_key(known);
                let k = choose|k: Seq<char>| known.contains_key(k);
                assert(known.union_prefer_right(interfaces@).contains_key(k));
            }
            assert(objects@.map_values(|o: DBusObject| o@) =~= with_added(
                old(self)@,
                path@,
                interfaces@,
            ));
        }
        self.objects = objects;
    }

    /// Removes interfaces from the object at `path`.
    pub fn remove_interfaces(&mut self, path: &str, names: &Vec<String>)
        ensures
            final(self)@ == with_removed(old(self)@, path@, names_of(names@)),
            final(self).discovering_on() == old(self).discovering_on(),
    {
        proof {
            use_type_invariant(&*self);
        }
        let mut objects: StrMap<DBusObject> = StrMap::new();
        core::mem::swap(&mut self.objects, &mut objects);
        match objects.remove(path) {
            Some(mut object) => {
                let ghost known = object@;
                let mut i: usize = 0;
                assert(object@ =~= known.remove_keys(names_of(names@.take(0))));
                while i < names.len()
                    invariant
                        i <= names@.len(),
                        object@ == known.remove_keys(names_of(names@.take(i as int))),
                    decreases names@.len() - i,
                {
                    object.remove(names[i].as_str());
                    proof {
                        let sooner = names_of(names@.take(i as int));
                        let later = names_of(names@.take(i + 1));
                        assert forall|k: Seq<char>| later.contains(k) <==> (sooner.contains(k) || k
                            == names@[i as int]@) by {
                            if sooner.contains(k) {
                                let j = choose|j: int|
                                    0 <= j < names@.take(i as int).len() && (
                                    #[trigger] names@.take(i as int)[j])@ == k;
                                assert(names@.take(i + 1)[j]@ == k);
                            }
                            if k == names@[i as int]@ {
                                assert(names@.take(i + 1)[i as int]@ == k);
                            }
                            if later.contains(k) {
                                let j = choose|j: int|
                                    0 <= j < names@.take(i + 1).len() && (#[trigger] names@.take(
                                        i + 1,
                                    )[j])@ == k;
                                if j < i {
                                    assert(names@.take(i as int)[j]@ == k);
                                }
                            }
                        }
                        assert(object@ =~= known.remove_keys(later));
                    }
                    i = i + 1;
                }
                assert(names@.take(i as int) == names@);
                if !object.is_empty() {
                    objects.insert(path.to_owned(), object);
                }
            },
            None => {},
        }
        proof {
            assert(objects@.map_values(|o: DBusObject| o@) =~= with_removed(
                old(self)@,
                path@,
                names_of(names@),
            ));
        }
        self.objects = objects;
    }

    /// Takes in a signal of the broker. The result is the path of the
    /// object that the signal has changed and left in place, if any.
    pub fn process_interface_signal(&mut self, msg: InterfaceSignal) -> (r: Option<String>)
        ensures
            final(self)@ == applied(old(self)@, msg),
            name_view(r) == affected(old(self)@, msg),
            final(self).discovering_on() == old(self).discovering_on(),
    {
        match msg {
            InterfaceSignal::Added { object, interfaces } => {
                let path = object.clone();
                self.add_interfaces(object, interfaces);
                if self.objects.contains_key(path.as_str()) {
                    Some(path)
                } else {
                    None
                }
            },
            InterfaceSignal::Removed { object, interfaces } => {
                self.remove_interfaces(object.as_str(), &interfaces);
                None
            },
        }
    }

    /// Takes in signals that were waiting, in their order.
    pub fn drain(&mut self, signals: Vec<InterfaceSignal>)
        ensures
            final(self)@ == applied_all(old(self)@, signals@),
            final(self).discovering_on() == old(self).discovering_on(),
    {
        let mut signals = signals;
        let ghost all = signals@;
        let mut rest: Vec<InterfaceSignal> = Vec::new();
        // The signals are taken from the end, so they are turned round first.
        while signals.len() > 0
            invariant
                signals@.len() + rest@.len() == all.len(),
                forall|i: int| 0 <= i < signals@.len() ==> signals@[i] == all[i],
                forall|i: int|
                    0 <= i < rest@.len() ==> rest@[i] == all[all.len() - 1 - i],
            decreases signals@.len(),
        {
            let signal = signals.pop().unwrap();
            rest.push(signal);
        }
        let mut done: Ghost<int> = Ghost(0);
        while rest.len() > 0
            invariant
                0 <= done@ <= all.len(),
                rest@.len() + done@ == all.len(),
                forall|i: int|
                    0 <= i < rest@.len() ==> rest@[i] == all[all.len() - 1 - i],
                self@ == applied_all(old(self)@, all.take(done@)),
                self.discovering_on() == old(self).discovering_on(),
            decreases rest@.len(),
        {
            let signal = rest.pop().unwrap();
            proof {
                assert(signal == all[done@]);
                assert(all.take(done@ + 1).drop_last() == all.take(done@));
                assert(all.take(done@ + 1).last() == signal);
            }
            self.process_interface_signal(signal);
            proof {
                done@ = done@ + 1;
            }
        }
        assert(all.take(done@) == all);
    }

    /// Remembers the adapter on which discovery was started, so that it
    /// can be stopped there.
    pub fn start_discovery(&mut self, adapter: String)
        ensures
            final(self)@ == old(self)@,
            final(self).discovering_on() == Some(adapter),
    {
        proof {
            use_type_invariant(&*self);
        }
        self.adapter = Some(adapter);
    }

    /// The adapter on which discovery was started and must be stopped.
    pub fn adapter(&self) -> (r: Option<&String>)
        ensures
            match r {
                Some(a) => self.discovering_on() == Some(*a),
                None => self.discovering_on() is None,
            },
    {
        self.adapter.as_ref()
    }

    /// The path of an object that answers the question with yes, if there
    /// is one among the objects known now.
    pub fn find_object(&self, query: &Query) -> (r: Option<String>)
        ensures
            match r {
                Some(path) => self@.contains_key(path@) && satisfies(self@[path@], *query),
                None => !some_match(self@, *query),
            },
    {
        let n: usize = self.objects.len();
        let mut i: usize = 0;
        while i < n
            invariant
                i <= n,
                n == self.objects.keys().len(),
                self.objects@.dom() == self.objects.keys().to_set(),
                forall|j: int|
                    0 <= j < i ==> !satisfies(
                        self@[#[trigger] self.objects.keys()[j]],
                        *query,
                    ),
            decreases n - i,
        {
            if answer(self.objects.value_at(i), query) {
                return Some(self.objects.key_at(i).to_owned());
            }
            i = i + 1;
        }
        proof {
            if some_match(self@, *query) {
                let path = choose|path: Seq<char>| #[trigger]
                    self@.contains_key(path) && satisfies(self@[path], *query);
                assert(self.objects@.dom().contains(path));
                assert(self.objects.keys().to_set().contains(path));
                let j = choose|j: int|
                    0 <= j < self.objects.keys().len() && self.objects.keys()[j] == path;
                assert(!satisfies(self@[self.objects.keys()[j]], *query));
            }
        }
        None
    }

    /// The paths of the objects known now that answer the question with
    /// yes, each once.
    pub fn find_objects(&self, query: &Query) -> (r: Vec<String>)
        ensures
            views_of(r@).no_duplicates(),
            forall|path: Seq<char>|
                views_of(r@).contains(path) <==> self@.contains_key(path) && satisfies(
                    self@[path],
                    *query,
                ),
    {
        let n: usize = self.objects.len();
        let mut found: Vec<String> = Vec::new();
        let mut i: usize = 0;
        while i < n
            invariant
                i <= n,
                n == self.objects.keys().len(),
                self.objects.keys().no_duplicates(),
                self.objects@.dom() == self.objects.keys().to_set(),
                views_of(found@).no_duplicates(),
                forall|k: int|
                    0 <= k < found@.len() ==> exists|j: int|
                        0 <= j < i && self.objects.keys()[j] == #[trigger] views_of(found@)[k],
                forall|j: int|
                    0 <= j < i ==> (views_of(found@).contains(#[trigger] self.objects.keys()[j])
                        <==> satisfies(self@[self.objects.keys()[j]], *query)),
            decreases n - i,
        {
            let ghost before = views_of(found@);
            if answer(self.objects.value_at(i), query) {
                found.push(self.objects.key_at(i).to_owned());
                proof {
                    let key = self.objects.keys()[i as int];
                    assert(views_of(found@) =~= before.push(key));
                    assert(!before.contains(key));
                    assert forall|j: int| 0 <= j <= i implies (views_of(found@).contains(
                        #[trigger] self.objects.keys()[j],
                    ) <==> satisfies(self@[self.objects.keys()[j]], *query)) by {
                        let kj = self.objects.keys()[j];
                        if j < i {
                            if before.contains(kj) {
                                let k = choose|k: int| 0 <= k < before.len() && before[k] == kj;
                                assert(views_of(found@)[k] == kj);
                            }
                            if views_of(found@).contains(kj) {
                                let k = choose|k: int|
                                    0 <= k < views_of(found@).len() && views_of(found@)[k] == kj;
                                assert(k < before.len());
                                assert(before[k] == kj);
                            }
                        } else {
                            assert(views_of(found@)[before.len() as int] == key);
                        }
                    }
                }
            } else {
                proof {
                    let key = self.objects.keys()[i as int];
                    if before.contains(key) {
                        let k = choose|k: int| 0 <= k < before.len() && before[k] == key;
                        assert(views_of(found@)[k] == key);
                    }
                }
            }
            i = i + 1;
        }
        proof {
            assert forall|path: Seq<char>|
                views_of(found@).contains(path) <==> self@.contains_key(path) && satisfies(
                    self@[path],
                    *query,
                ) by {
                if views_of(found@).contains(path) {
                    let k = choose|k: int|
                        0 <= k < views_of(found@).len() && views_of(found@)[k] == path;
                    let j = choose|j: int|
                        0 <= j < i && self.objects.keys()[j] == views_of(found@)[k];
                    assert(self.objects.keys().to_set().contains(self.objects.keys()[j]));
                }
                if self@.contains_key(path) && satisfies(self@[path], *query) {
                    assert(self.objects@.dom().contains(path));
                    assert(self.objects.keys().to_set().contains(path));
                    let j = choose|j: int|
                        0 <= j < self.objects.keys().len() && self.objects.keys()[j] == path;
                    assert(views_of(found@).contains(self.objects.keys()[j]));
                }
            }
        }
        found
    }
}

/// Removing the last interfaces of an object removes the object.
pub proof fn last_interface_takes_object(objects: Objects, path: Seq<char>, names: Set<Seq<char>>)
    requires
        objects.contains_key(path),
        forall|name: Seq<char>| objects[path].contains_key(name) ==> names.contains(name),
    ensures
        !with_removed(objects, path, names).contains_key(path),
{
    assert(objects[path].remove_keys(names) =~= Map::<
        Seq<char>,
        crate::dbus_common::utils::PropertyBag,
    >::empty());
}

/// An object that keeps an interface stays, with the interfaces that were
/// not removed.
pub proof fn other_interfaces_stay(
    objects: Objects,
    path: Seq<char>,
    names: Set<Seq<char>>,
    kept: Seq<char>,
)
    requires
        objects.contains_key(path),
        objects[path].contains_key(kept),
        !names.contains(kept),
    ensures
        with_removed(objects, path, names).contains_key(path),
        with_removed(objects, path, names)[path].contains_key(kept),
        with_removed(objects, path, names)[path][kept] == objects[path][kept],
{
    assert(objects[path].remove_keys(names).contains_key(kept));
}

/// An added interface takes the place of the one of its name, properties
/// and all, and the other interfaces of the object stay as they were.
pub proof fn added_interface_replaces(
    objects: Objects,
    path: Seq<char>,
    interfaces: ObjectView,
    name: Seq<char>,
)
    requires
        interfaces.contains_key(name),
    ensures
        with_added(objects, path, interfaces).contains_key(path),
        with_added(objects, path, interfaces)[path].contains_key(name),
        with_added(objects, path, interfaces)[path][name] == interfaces[name],
        forall|other: Seq<char>|
            objects.contains_key(path) && objects[path].contains_key(other)
                && !interfaces.contains_key(other) ==> with_added(
                objects,
                path,
                interfaces,
            )[path].contains_key(other) && with_added(objects, path, interfaces)[path][other]
                == objects[path][other],
{
    let known: ObjectView = if objects.contains_key(path) {
        objects[path]
    } else {
        Map::empty()
    };
    assert(known.union_prefer_right(interfaces).contains_key(name));
}

/// A signal about one object leaves every other object as it was.
pub proof fn signal_touches_one_object(objects: Objects, signal: InterfaceSignal, other: Seq<char>)
    requires
        other != (match signal {
            InterfaceSignal::Added { object, interfaces } => object@,
            InterfaceSignal::Removed { object, interfaces } => object@,
        }),
    ensures
        applied(objects, signal).contains_key(other) == objects.contains_key(other),
        objects.contains_key(other) ==> applied(objects, signal)[other] == objects[other],
{
}

/// No signal leaves an object without interface behind.
pub proof fn no_object_is_left_bare(objects: Objects, signal: InterfaceSignal)
    requires
        forall|path: Seq<char>| #[trigger]
            objects.contains_key(path) ==> objects[path] != Map::<
                Seq<char>,
                crate::dbus_common::utils::PropertyBag,
            >::empty(),
    ensures
        forall|path: Seq<char>| #[trigger]
            applied(objects, signal).contains_key(path) ==> applied(objects, signal)[path]
                != Map::<Seq<char>, crate::dbus_common::utils::PropertyBag>::empty(),
{
}

} // verus!
