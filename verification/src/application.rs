use vstd::prelude::*;

verus! {

use std::sync::Arc;
use std::sync::Mutex;
use crate::event::{Event, EventEnvelope};
use crate::event_dispatcher::{DispatcherCallback, EventDispatcher, EventDispatcherErrors};
use crate::event_queue::{EventQueue, EventQueueErrors};

/// The reason the tick loop ends: a normal exit, or an error carrying the
/// process status code.
#[derive(Debug, Clone, Copy, PartialEq, Eq, Structural)]
pub enum ExitReason {
    Normal,
    Error(i32),
}

/// The process status a termination reason maps to.
pub open spec fn exit_status_spec(reason: ExitReason) -> i32 {
    match reason {
        ExitReason::Normal => 0,
        ExitReason::Error(code) => code,
    }
}

/// The process status carried by a termination reason: 0 for a normal exit,
/// the carried code for an error.
pub fn exit_status(reason: ExitReason) -> (r: i32)
    ensures
        r == exit_status_spec(reason),
{
    match reason {
        ExitReason::Normal => 0,
        ExitReason::Error(code) => code,
    }
}

/// The shared slot for the termination reason: the internal exit handler
/// stores into it, the tick loop takes from it. Clones share one slot behind
/// a lock, so nothing is promised of its contents at any given moment.
#[verifier::external_body]
#[derive(Debug)]
pub struct ExitSignal {
    slot: Arc<Mutex<Option<ExitReason>>>,
}

impl ExitSignal {
    /// Relies on std::sync::Mutex::new: a fresh, unlocked slot holding
    /// nothing.
    #[verifier::external_body]
    pub fn new() -> ExitSignal {
        ExitSignal { slot: Arc::new(Mutex::new(None)) }
    }

    /// Relies on std::sync::Arc::clone: another handle on the same slot; no
    /// contents change.
    #[verifier::external_body]
    pub fn share(&self) -> ExitSignal {
        ExitSignal { slot: Arc::clone(&self.slot) }
    }

    /// Relies on std::sync::Mutex::try_lock: on success the reason replaces
    /// the slot's contents; on contention it is dropped, best-effort.
    #[verifier::external_body]
    pub fn try_store(&self, reason: ExitReason) {
        if let Ok(mut guard) = self.slot.try_lock() {
            guard.replace(reason);
        }
    }

    /// Relies on std::sync::Mutex::try_lock and Option::take: on success the
    /// stored reason comes out and the slot is left empty; on contention, or
    /// with nothing stored, the result is `None`.
    #[verifier::external_body]
    pub fn try_take(&self) -> Option<ExitReason> {
        match self.slot.try_lock() {
            Ok(mut guard) => guard.take(),
            Err(_) => None,
        }
    }
}

/// The application: it owns one dispatcher per registration and the shared
/// exit signal, and drives the tick loop's drain, fan-out and exit decision.
pub struct Application {
    exit_flag: ExitSignal,
    dispatchers: Vec<EventDispatcher>,
}

impl Application {
    /// The owned dispatchers, one per registration, in registration order.
    pub closed spec fn dispatchers_spec(&self) -> Seq<EventDispatcher> {
        self.dispatchers@
    }

    /// Registers `cb` for events named `event_name`: a fresh dispatcher with
    /// that one handler joins the owned collection. A second registration for
    /// the same name makes an independent dispatcher, not a merged one. The
    /// fresh dispatcher's lock is free, so registration itself cannot fail.
    pub fn on_event<F: Fn(&EventEnvelope) + Send + Sync + 'static>(
        &mut self,
        event_name: String,
        cb: F,
    ) -> (r: Option<EventDispatcherErrors>)
        ensures
            r is None,
            final(self).dispatchers_spec().len() == old(self).dispatchers_spec().len() + 1,
            final(self).dispatchers_spec().drop_last() == old(self).dispatchers_spec(),
            final(self).dispatchers_spec().last().event_name_spec() == event_name@,
            final(self).dispatchers_spec().last().handlers_spec().len() == 1,
            !final(self).dispatchers_spec().last().lock_held_spec(),
    {
        let mut dispatcher = EventDispatcher::new(event_name);
        match dispatcher.add_handlers(DispatcherCallback::new(cb)) {
            Err(err) => Some(err),
            Ok(()) => {
                self.dispatchers.push(dispatcher);
                proof {
                    assert(self.dispatchers@.drop_last() =~= old(self).dispatchers@);
                }
                None
            },
        }
    }

    /// Registers the internal exit handler: on each event named `Exit` whose
    /// payload is a termination reason, that reason is stored, best-effort,
    /// in the shared exit signal.
    pub fn initalize(&mut self)
        ensures
            final(self).dispatchers_spec().len() == old(self).dispatchers_spec().len() + 1,
            final(self).dispatchers_spec().drop_last() == old(self).dispatchers_spec(),
            final(self).dispatchers_spec().last().event_name_spec() == "Exit"@,
            final(self).dispatchers_spec().last().handlers_spec().len() == 1,
    {
        let exit_flag = self.exit_flag.share();
        let _ = self.on_event(
            "Exit".to_string(),
            (move |event: &EventEnvelope|
                {
                    if let Some(data) = event.data_ref() {
                        if let Some(exit) = data.get_ref::<ExitReason>() {
                            exit_flag.try_store(*exit);
                        }
                    }
                }),
        );
    }

    /// Offers `event` to every owned dispatcher; each one routes it by name.
    /// A dispatcher-level error never halts the fan-out to the remaining
    /// dispatchers.
    pub fn dispatch<E: Event>(&self, event: &E) {
        let count = self.dispatchers.len();
        let mut i: usize = 0;
        while i < count
            invariant
                count == self.dispatchers@.len(),
                i <= count,
            decreases count - i,
        {
            let _ = self.dispatchers[i].dispatch(event);
            i += 1;
        }
    }

    /// One pass of the tick loop: drain the queue, fan each drained envelope
    /// out to every dispatcher, then decide termination. The empty signal and
    /// drain contention are absorbed, not surfaced. The result is the process
    /// status to exit with, if the exit signal held a reason.
    pub fn tick(&self, queue: &mut EventQueue) -> (r: Option<i32>)
        ensures
            final(queue).consumer_alive_spec() == old(queue).consumer_alive_spec(),
            final(queue).consumer_lock_held_spec() == old(queue).consumer_lock_held_spec(),
            !old(queue).consumer_lock_held_spec() ==> final(queue).pending_spec().len() == 0,
            old(queue).consumer_lock_held_spec() ==> final(queue).pending_spec() == old(
                queue,
            ).pending_spec(),
    {
        match queue.get_events() {
            Ok(events) => {
                let count = events.len();
                let mut i: usize = 0;
                while i < count
                    invariant
                        count == events@.len(),
                        i <= count,
                    decreases count - i,
                {
                    self.dispatch(&events[i]);
                    i += 1;
                }
            },
            Err(EventQueueErrors::EmptyQueue) => {},
            Err(EventQueueErrors::UnableToFetchEventsFromQueue) => {},
            Err(EventQueueErrors::UnableToEmitToEventQueue(_)) => {},
        }
        match self.exit_flag.try_take() {
            Some(reason) => Some(exit_status(reason)),
            None => None,
        }
    }
}

impl Default for Application {
    /// An application with no dispatchers and an empty exit signal.
    fn default() -> (r: Application)
        ensures
            r.dispatchers_spec() == Seq::<EventDispatcher>::empty(),
    {
        Application { exit_flag: ExitSignal::new(), dispatchers: Vec::new() }
    }
}

} // verus!
