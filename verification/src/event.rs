use vstd::prelude::*;

verus! {

use std::any::Any;
use std::sync::Arc;

/// Type-erased payload container: owns one value of an arbitrary concrete
/// type and offers type-checked, read-only retrieval. Retrieval succeeds only
/// when the requested type equals the stored concrete type.
#[verifier::external_body]
#[derive(Debug)]
pub struct DynamicStore {
    value: Arc<dyn Any + Send + Sync>,
}

impl DynamicStore {
    /// Relies on std::any::Any: erases the concrete type of `value` while
    /// keeping it recoverable by a type-checked downcast.
    #[verifier::external_body]
    pub fn new<T: 'static + Send + Sync>(value: T) -> DynamicStore {
        DynamicStore { value: Arc::new(value) }
    }

    /// Relies on std::any::Any::downcast_ref: a reference to the stored value
    /// when its concrete type equals `T`, and `None` for every other `T`.
    #[verifier::external_body]
    pub fn get_ref<T: 'static>(&self) -> Option<&T> {
        self.value.downcast_ref::<T>()
    }

    /// Relies on std::sync::Arc::clone: another handle on the same stored
    /// value; no value is copied or changed.
    #[verifier::external_body]
    pub fn share(&self) -> DynamicStore {
        DynamicStore { value: Arc::clone(&self.value) }
    }
}

/// An event: a named, optionally data-carrying message. The name is shared by
/// all instances of one event kind and serves purely as a routing key.
pub trait Event {
    /// The routing name of this event kind. Unless an implementation says
    /// otherwise, nothing is known of it.
    open spec fn name_spec(&self) -> Seq<char> {
        arbitrary()
    }

    /// Whether this event carries a payload. Unless an implementation says
    /// otherwise, nothing is known of it.
    open spec fn has_data_spec(&self) -> bool {
        arbitrary()
    }

    fn get_name(&self) -> (r: String)
        ensures
            r@ == self.name_spec(),
    ;

    fn get_data(&self) -> (r: Option<DynamicStore>)
        ensures
            r is Some <==> self.has_data_spec(),
    ;
}

/// The form an event takes between emission and dispatch: its routing name
/// together with its optional payload, detached from the concrete event kind.
#[derive(Debug)]
pub struct EventEnvelope {
    name: String,
    data: Option<DynamicStore>,
}

impl EventEnvelope {
    /// Seals an event into an envelope, keeping its name and payload.
    pub fn from_event<E: Event>(event: &E) -> (r: EventEnvelope)
        ensures
            r.name_spec() == event.name_spec(),
            r.has_data_spec() == event.has_data_spec(),
    {
        EventEnvelope { name: event.get_name(), data: event.get_data() }
    }

    /// A borrowed view of the payload, if the event carries one.
    pub fn data_ref(&self) -> (r: Option<&DynamicStore>)
        ensures
            r is Some <==> self.has_data_spec(),
    {
        self.data.as_ref()
    }
}

impl Event for EventEnvelope {
    closed spec fn name_spec(&self) -> Seq<char> {
        self.name@
    }

    closed spec fn has_data_spec(&self) -> bool {
        self.data is Some
    }

    fn get_name(&self) -> (r: String) {
        self.name.clone()
    }

    fn get_data(&self) -> (r: Option<DynamicStore>) {
        match &self.data {
            Some(store) => Some(store.share()),
            None => None,
        }
    }
}

/// Two envelopes are equal when their routing names are: payloads take no
/// part, mirroring the queue's view of events as named messages.
impl PartialEq for EventEnvelope {
    fn eq(&self, other: &EventEnvelope) -> (r: bool) {
        self.name == other.name
    }
}

impl vstd::std_specs::cmp::PartialEqSpecImpl for EventEnvelope {
    open spec fn obeys_eq_spec() -> bool {
        true
    }

    open spec fn eq_spec(&self, other: &EventEnvelope) -> bool {
        self.name_spec() == other.name_spec()
    }
}

} // verus!
