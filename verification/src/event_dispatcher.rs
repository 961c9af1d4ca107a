use vstd::prelude::*;

verus! {

use std::sync::Arc;
use crate::event::{Event, EventEnvelope};

/// How many times a lock on the handler list is attempted before the
/// operation fails: bounded retry instead of indefinite blocking.
pub const LOCK_ATTEMPTS: u8 = 5;

/// A handler callback as the dispatcher stores it: shared and type-erased,
/// invoked with the envelope of each matching event.
#[verifier::external_body]
pub struct DispatcherCallback {
    callback: Arc<dyn Fn(&EventEnvelope) + Send + Sync>,
}

impl DispatcherCallback {
    /// Relies on std::sync::Arc::new: wraps the closure for shared ownership;
    /// the closure itself is untouched.
    #[verifier::external_body]
    pub fn new<F: Fn(&EventEnvelope) + Send + Sync + 'static>(callback: F) -> DispatcherCallback {
        DispatcherCallback { callback: Arc::new(callback) }
    }

    /// Relies on the stored closure's own Fn implementation: runs the handler
    /// synchronously on the calling thread. Nothing is promised of its
    /// effects; they belong to whoever registered the handler.
    #[verifier::external_body]
    fn invoke(&self, event: &EventEnvelope) {
        (self.callback)(event)
    }
}

/// The ways a dispatcher operation can fail.
#[derive(Debug, PartialEq, Eq, Structural)]
pub enum EventDispatcherErrors {
    /// The handler list's lock stayed contended through every retry.
    UnableToAddHandler,
}

/// A per-name handler registry: it owns one event name and an ordered list of
/// handler callbacks, and routes to them exactly the events that carry its
/// own name.
pub struct EventDispatcher {
    event_name: String,
    handlers: Vec<DispatcherCallback>,
    lock_held: bool,
}

impl EventDispatcher {
    /// The dispatch key this dispatcher matches event names against.
    pub closed spec fn event_name_spec(&self) -> Seq<char> {
        self.event_name@
    }

    /// The registered handlers, in registration order.
    pub closed spec fn handlers_spec(&self) -> Seq<DispatcherCallback> {
        self.handlers@
    }

    /// Whether the handler list's lock is currently held.
    pub closed spec fn lock_held_spec(&self) -> bool {
        self.lock_held
    }

    pub fn new(event_name: String) -> (r: EventDispatcher)
        ensures
            r.event_name_spec() == event_name@,
            r.handlers_spec() == Seq::<DispatcherCallback>::empty(),
            !r.lock_held_spec(),
    {
        EventDispatcher { event_name, handlers: Vec::new(), lock_held: false }
    }

    /// Takes the handler list's lock when it is free. The caller must release
    /// it again; while it is held, registration and dispatch fail after their
    /// retries instead of blocking.
    pub fn acquire_handlers_lock(&mut self) -> (r: bool)
        ensures
            r == !old(self).lock_held_spec(),
            final(self).lock_held_spec(),
            final(self).event_name_spec() == old(self).event_name_spec(),
            final(self).handlers_spec() == old(self).handlers_spec(),
    {
        let was_free = !self.lock_held;
        self.lock_held = true;
        was_free
    }

    /// Releases the handler list's lock.
    pub fn release_handlers_lock(&mut self)
        ensures
            !final(self).lock_held_spec(),
            final(self).event_name_spec() == old(self).event_name_spec(),
            final(self).handlers_spec() == old(self).handlers_spec(),
    {
        self.lock_held = false;
    }

    /// Appends `cb` to the handler list, preserving registration order. The
    /// lock is attempted a bounded number of times; when it stays contended,
    /// the registration fails with an error and the list is unchanged.
    pub fn add_handlers(&mut self, cb: DispatcherCallback) -> (r: Result<
        (),
        EventDispatcherErrors,
    >)
        ensures
            final(self).event_name_spec() == old(self).event_name_spec(),
            final(self).lock_held_spec() == old(self).lock_held_spec(),
            old(self).lock_held_spec() ==> {
                &&& r == Err::<(), EventDispatcherErrors>(EventDispatcherErrors::UnableToAddHandler)
                &&& final(self).handlers_spec() == old(self).handlers_spec()
            },
            !old(self).lock_held_spec() ==> {
                &&& r == Ok::<(), EventDispatcherErrors>(())
                &&& final(self).handlers_spec() == old(self).handlers_spec().push(cb)
            },
    {
        let mut counter: u8 = 0;
        while self.lock_held
            invariant
                counter < LOCK_ATTEMPTS,
                self == old(self),
            decreases LOCK_ATTEMPTS - counter,
        {
            if counter == LOCK_ATTEMPTS - 1 {
                return Err(EventDispatcherErrors::UnableToAddHandler);
            }
            counter += 1;
        }
        self.handlers.push(cb);
        Ok(())
    }

    /// Offers `event` to this dispatcher. A non-matching name is no error: no
    /// handler runs and the result is `Ok(false)`. On a match, the handler
    /// list is read under the lock (with the same bounded retry as
    /// registration) and every handler runs synchronously, in registration
    /// order, on the calling thread.
    pub fn dispatch<E: Event>(&self, event: &E) -> (r: Result<bool, EventDispatcherErrors>)
        ensures
            r == Ok::<bool, EventDispatcherErrors>(false) <==> event.name_spec()
                != self.event_name_spec(),
            event.name_spec() == self.event_name_spec() && !self.lock_held_spec() ==> r == Ok::<
                bool,
                EventDispatcherErrors,
            >(true),
            event.name_spec() == self.event_name_spec() && self.lock_held_spec() ==> r == Err::<
                bool,
                EventDispatcherErrors,
            >(EventDispatcherErrors::UnableToAddHandler),
    {
        let name = event.get_name();
        if !(name == self.event_name) {
            return Ok(false);
        }
        let mut counter: u8 = 0;
        while self.lock_held
            invariant
                counter < LOCK_ATTEMPTS,
                event.name_spec() == self.event_name_spec(),
            decreases LOCK_ATTEMPTS - counter,
        {
            if counter == LOCK_ATTEMPTS - 1 {
                return Err(EventDispatcherErrors::UnableToAddHandler);
            }
            counter += 1;
        }
        let envelope = EventEnvelope::from_event(event);
        let count = self.handlers.len();
        let mut i: usize = 0;
        while i < count
            invariant
                count == self.handlers@.len(),
                i <= count,
            decreases count - i,
        {
            self.handlers[i].invoke(&envelope);
            i += 1;
        }
        Ok(true)
    }
}

} // verus!
