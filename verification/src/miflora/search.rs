//! The search for an object that may not have appeared yet.
//!
//! A search first asks the objects known now. While none answers, the
//! caller waits for the broker's next signal, for no longer than the search
//! still allows, and hands it in. The search ends with the first object
//! that answers, when a wait brings nothing, or when its time is used up.
//! Signals that are still waiting then are taken in without being asked.

use super::dbus_bluez::{
    affected, applied, some_match, BluezManager, InterfaceSignal, Objects,
    BLUEZ_INTERFACE_ADAPTER1, BLUEZ_INTERFACE_DEVICE1,
};
use crate::dbus_common::utils::{property_holds, property_is, satisfies, ObjectView, Query};
use crate::text::views_of;
use vstd::prelude::*;

verus! {

/// A search in progress.
#[derive(Debug)]
pub struct Search {
    query: Query,
    remaining_ms: u32,
}

/// What came of a wait for the broker's next signal.
#[derive(Debug)]
pub enum SearchEvent {
    /// A signal came in after `waited_ms` milliseconds.
    Signal { signal: InterfaceSignal, waited_ms: u32 },
    /// The wait brought nothing.
    Quiet,
}

/// How a search goes on.
#[derive(Debug)]
pub enum SearchStep {
    /// The object at this path answers the question.
    Found(String),
    /// No object answers yet: wait for the next signal, for this many
    /// milliseconds at most.
    Wait(u32),
    /// The search is over and no object has answered.
    TimedOut,
}

/// A step of a search as a mathematical value.
pub enum Step {
    Found(Seq<char>),
    Wait(u32),
    TimedOut,
}

impl View for SearchStep {
    type V = Step;

    open spec fn view(&self) -> Step {
        match self {
            SearchStep::Found(path) => Step::Found(path@),
            SearchStep::Wait(ms) => Step::Wait(*ms),
            SearchStep::TimedOut => Step::TimedOut,
        }
    }
}

/// What is left of `remaining` milliseconds after a wait of `waited`.
pub open spec fn left_after(remaining: u32, waited: u32) -> u32 {
    if waited >= remaining {
        0
    } else {
        (remaining - waited) as u32
    }
}

/// The objects after an event of a search.
pub open spec fn objects_after(objects: Objects, event: SearchEvent) -> Objects {
    match event {
        SearchEvent::Signal { signal, waited_ms } => applied(objects, signal),
        SearchEvent::Quiet => objects,
    }
}

/// The step of a search that has found nothing and has `left` milliseconds
/// left: it waits on while time is left.
pub open spec fn wait_or_give_up(left: u32) -> Step {
    if left == 0 {
        Step::TimedOut
    } else {
        Step::Wait(left)
    }
}

/// How a search for `query` with `remaining` milliseconds left goes on
/// after an event: a signal is taken in and the object it has changed is
/// asked; a wait that brought nothing ends the search, and so does a signal
/// that finds nothing and leaves no time.
pub open spec fn step_after(
    objects: Objects,
    query: Query,
    remaining: u32,
    event: SearchEvent,
) -> Step {
    match event {
        SearchEvent::Signal { signal, waited_ms } => match affected(objects, signal) {
            Some(path) => if satisfies(applied(objects, signal)[path], query) {
                Step::Found(path)
            } else {
                wait_or_give_up(left_after(remaining, waited_ms))
            },
            None => wait_or_give_up(left_after(remaining, waited_ms)),
        },
        SearchEvent::Quiet => Step::TimedOut,
    }
}

/// The time that a search has left after an event.
pub open spec fn remaining_after(remaining: u32, event: SearchEvent) -> u32 {
    match event {
        SearchEvent::Signal { signal, waited_ms } => left_after(remaining, waited_ms),
        SearchEvent::Quiet => remaining,
    }
}

impl Search {
    /// What is looked for.
    pub closed spec fn query(&self) -> Query {
        self.query
    }

    /// The milliseconds that the search may still wait.
    pub closed spec fn remaining(&self) -> u32 {
        self.remaining_ms
    }

    /// The milliseconds that the search may still wait.
    pub fn remaining_ms(&self) -> (r: u32)
        ensures
            r == self.remaining(),
    {
        self.remaining_ms
    }

    /// Starts a search among the objects known now. An object that answers
    /// is found at once, and no signal is asked for; else the search waits,
    /// for `timeout_ms` in all, or looks once at what is waiting where no
    /// time is given.
    pub fn begin(manager: &BluezManager, query: Query, timeout_ms: Option<u32>) -> (r: (
        Search,
        SearchStep,
    ))
        ensures
            r.0.query() == query,
            r.0.remaining() == match timeout_ms {
                Some(ms) => ms,
                None => 0u32,
            },
            match r.1 {
                SearchStep::Found(path) => manager@.contains_key(path@) && satisfies(
                    manager@[path@],
                    query,
                ),
                SearchStep::Wait(ms) => !some_match(manager@, query) && ms == r.0.remaining(),
                SearchStep::TimedOut => false,
            },
    {
        let remaining_ms: u32 = match timeout_ms {
            Some(ms) => ms,
            None => 0,
        };
        let step = match manager.find_object(&query) {
            Some(path) => SearchStep::Found(path),
            None => SearchStep::Wait(remaining_ms),
        };
        (Search { query, remaining_ms }, step)
    }

    /// Goes on after a wait: takes the signal in, if one came, and asks the
    /// object that it has changed.
    pub fn advance(&mut self, manager: &mut BluezManager, event: SearchEvent) -> (r: SearchStep)
        ensures
            final(manager)@ == objects_after(old(manager)@, event),
            final(manager).discovering_on() == old(manager).discovering_on(),
            r@ == step_after(old(manager)@, old(self).query(), old(self).remaining(), event),
            final(self).query() == old(self).query(),
            final(self).remaining() == remaining_after(old(self).remaining(), event),
    {
        match event {
            SearchEvent::Signal { signal, waited_ms } => {
                self.remaining_ms = if waited_ms >= self.remaining_ms {
                    0
                } else {
                    self.remaining_ms - waited_ms
                };
                match manager.process_interface_signal(signal) {
                    Some(path) => {
                        let found = match manager.get(path.as_str()) {
                            Some(object) => crate::dbus_common::utils::answer(
                                object,
                                &self.query,
                            ),
                            None => false,
                        };
                        if found {
                            SearchStep::Found(path)
                        } else if self.remaining_ms == 0 {
                            SearchStep::TimedOut
                        } else {
                            SearchStep::Wait(self.remaining_ms)
                        }
                    },
                    None => if self.remaining_ms == 0 {
                        SearchStep::TimedOut
                    } else {
                        SearchStep::Wait(self.remaining_ms)
                    },
                }
            },
            SearchEvent::Quiet => SearchStep::TimedOut,
        }
    }
}

/// The question for a device that offers the service `uuid`.
pub open spec fn offers_service(object: ObjectView, uuid: Seq<char>) -> bool {
    property_holds(object, BLUEZ_INTERFACE_DEVICE1@, "UUIDs"@, uuid)
}

/// The question for the device with the hardware address `address`.
pub open spec fn has_address(object: ObjectView, address: Seq<char>) -> bool {
    property_is(object, BLUEZ_INTERFACE_DEVICE1@, "Address"@, address)
}

/// The question for an adapter.
pub open spec fn is_adapter(object: ObjectView) -> bool {
    object.contains_key(BLUEZ_INTERFACE_ADAPTER1@)
}

/// The question for a device that offers the service `required_uuid`.
pub fn service_query(required_uuid: &str) -> (r: Query)
    ensures
        forall|object: ObjectView| #[trigger]
            satisfies(object, r) == offers_service(object, required_uuid@),
{
    Query::PropertyHolds {
        interface: BLUEZ_INTERFACE_DEVICE1.to_owned(),
        property: "UUIDs".to_owned(),
        value: required_uuid.to_owned(),
    }
}

/// The question for the device with the hardware address `hw_addr`.
pub fn address_query(hw_addr: &str) -> (r: Query)
    ensures
        forall|object: ObjectView| #[trigger]
            satisfies(object, r) == has_address(object, hw_addr@),
{
    Query::PropertyIs {
        interface: BLUEZ_INTERFACE_DEVICE1.to_owned(),
        property: "Address".to_owned(),
        value: hw_addr.to_owned(),
    }
}

/// The question for an adapter.
pub fn adapter_query() -> (r: Query)
    ensures
        forall|object: ObjectView| #[trigger] satisfies(object, r) == is_adapter(object),
{
    Query::HasInterface { interface: BLUEZ_INTERFACE_ADAPTER1.to_owned() }
}

/// Why a search found nothing.
#[derive(Clone, Copy, Debug, PartialEq, Eq, Structural)]
pub enum SearchError {
    AdapterNotFound,
    DeviceNotFound,
    RegistryTimeout,
}

/// What a step of a search means for the one who asked: the path that was
/// found, the failure of a search that is over, or nothing yet.
pub open spec fn outcome_of(step: Step) -> Option<Result<Seq<char>, SearchError>> {
    match step {
        Step::Found(path) => Some(Ok(path)),
        Step::Wait(_) => None,
        Step::TimedOut => Some(Err(SearchError::RegistryTimeout)),
    }
}

impl SearchStep {
    /// What the step means for the one who asked.
    pub fn outcome(self) -> (r: Option<Result<String, SearchError>>)
        ensures
            outcome_of(self@) == match r {
                Some(Ok(path)) => Some(Ok::<Seq<char>, SearchError>(path@)),
                Some(Err(e)) => Some(Err(e)),
                None => None,
            },
    {
        match self {
            SearchStep::Found(path) => Some(Ok(path)),
            SearchStep::Wait(_) => None,
            SearchStep::TimedOut => Some(Err(SearchError::RegistryTimeout)),
        }
    }
}

impl BluezManager {
    /// The devices known now that offer the service `required_uuid`, each
    /// once.
    pub fn scan(&self, required_uuid: &str) -> (r: Vec<String>)
        ensures
            views_of(r@).no_duplicates(),
            forall|path: Seq<char>|
                views_of(r@).contains(path)
                    <==> self@.contains_key(path) && offers_service(self@[path], required_uuid@),
    {
        let query = service_query(required_uuid);
        let found = self.find_objects(&query);
        proof {
            assert forall|path: Seq<char>|
                views_of(found@).contains(path)
                    <==> self@.contains_key(path) && offers_service(
                    self@[path],
                    required_uuid@,
                ) by {
                if self@.contains_key(path) {
                    assert(satisfies(self@[path], query) == offers_service(
                        self@[path],
                        required_uuid@,
                    ));
                }
            }
        }
        found
    }

    /// The device known now that has the hardware address `hw_addr`.
    pub fn find_by_address(&self, hw_addr: &str) -> (r: Result<String, SearchError>)
        ensures
            match r {
                Ok(path) => self@.contains_key(path@) && has_address(self@[path@], hw_addr@),
                Err(e) => e == SearchError::DeviceNotFound && forall|path: Seq<char>| #[trigger]
                    self@.contains_key(path) ==> !has_address(self@[path], hw_addr@),
            },
    {
        let query = address_query(hw_addr);
        match self.find_object(&query) {
            Some(path) => {
                assert(satisfies(self@[path@], query));
                Ok(path)
            },
            None => {
                proof {
                    assert forall|path: Seq<char>| #[trigger]
                        self@.contains_key(path) implies !has_address(self@[path], hw_addr@) by {
                        if has_address(self@[path], hw_addr@) {
                            assert(self@.contains_key(path) && satisfies(self@[path], query));
                        }
                    }
                }
                Err(SearchError::DeviceNotFound)
            },
        }
    }

    /// An adapter known now.
    pub fn find_adapter(&self) -> (r: Result<String, SearchError>)
        ensures
            match r {
                Ok(path) => self@.contains_key(path@) && is_adapter(self@[path@]),
                Err(e) => e == SearchError::AdapterNotFound && forall|path: Seq<char>| #[trigger]
                    self@.contains_key(path) ==> !is_adapter(self@[path]),
            },
    {
        let query = adapter_query();
        match self.find_object(&query) {
            Some(path) => {
                assert(satisfies(self@[path@], query));
                Ok(path)
            },
            None => {
                proof {
                    assert forall|path: Seq<char>| #[trigger]
                        self@.contains_key(path) implies !is_adapter(self@[path]) by {
                        if is_adapter(self@[path]) {
                            assert(self@.contains_key(path) && satisfies(self@[path], query));
                        }
                    }
                }
                Err(SearchError::AdapterNotFound)
            },
        }
    }
}

/// A wait that brings nothing ends the search without a find, whatever is
/// looked for: a search for what never appears ends when its time is up.
pub proof fn quiet_wait_ends_search(objects: Objects, query: Query, remaining: u32)
    ensures
        step_after(objects, query, remaining, SearchEvent::Quiet) == Step::TimedOut,
        objects_after(objects, SearchEvent::Quiet) == objects,
{
}

/// A signal never finds an object that does not answer: what is found is
/// among the objects after the signal and answers the question.
pub proof fn found_object_answers(
    objects: Objects,
    query: Query,
    remaining: u32,
    event: SearchEvent,
)
    requires
        step_after(objects, query, remaining, event) is Found,
    ensures
        objects_after(objects, event).contains_key(
            step_after(objects, query, remaining, event)->Found_0,
        ),
        satisfies(
            objects_after(objects, event)[step_after(objects, query, remaining, event)->Found_0],
            query,
        ),
{
}

/// The time that a search may still wait never grows, and a wait of the
/// whole time leaves none.
pub proof fn waiting_uses_up_time(remaining: u32, event: SearchEvent)
    ensures
        remaining_after(remaining, event) <= remaining,
        event matches SearchEvent::Signal { signal, waited_ms } && waited_ms >= remaining
            ==> remaining_after(remaining, event) == 0,
{
}

/// A search whose time is used up ends: after a wait of all the time that
/// was left, the search has found its object or is over. It never waits
/// again without time.
pub proof fn used_up_time_ends_search(
    objects: Objects,
    query: Query,
    remaining: u32,
    signal: InterfaceSignal,
    waited_ms: u32,
)
    requires
        waited_ms >= remaining,
    ensures
        !(step_after(objects, query, remaining, SearchEvent::Signal { signal, waited_ms })
            is Wait),
        forall|event: SearchEvent| step_after(objects, query, remaining, event) != Step::Wait(0),
{
}

} // verus!
