use std::sync::atomic::{AtomicU8, Ordering};
use std::sync::{Arc, Mutex};

use event_core::application::{exit_status, Application, ExitReason};
use event_core::application_events::ApplicationEvents;
use event_core::engine_events::{EngineEvent, EngineEventCategory};
use event_core::event::{DynamicStore, Event, EventEnvelope};
use event_core::event_dispatcher::{DispatcherCallback, EventDispatcher};
use event_core::event_queue::EventQueue;

#[derive(Debug)]
struct NamedEvent {
    name: String,
}

impl Event for NamedEvent {
    fn get_name(&self) -> String {
        self.name.clone()
    }

    fn get_data(&self) -> Option<DynamicStore> {
        None
    }
}

// Interleaved emissions from two producers come back from one drain as
// exactly the emitted events; each producer's own events keep their order.
#[test]
fn drain_returns_interleaved_emissions_in_order() {
    let mut queue = EventQueue::new();
    let first_producer = ["a1", "a2", "a3"];
    let second_producer = ["b1", "b2"];
    let interleaving = ["a1", "b1", "a2", "b2", "a3"];
    for name in interleaving.iter() {
        let ok = queue.emit(Box::new(NamedEvent { name: name.to_string() })).is_ok();
        assert!(ok);
    }

    let drained = queue.get_events().expect("drain should succeed");
    let names: Vec<String> = drained.iter().map(|e| e.get_name()).collect();
    assert_eq!(names, interleaving.to_vec());

    let firsts: Vec<String> =
        names.iter().filter(|n| n.starts_with('a')).cloned().collect();
    let seconds: Vec<String> =
        names.iter().filter(|n| n.starts_with('b')).cloned().collect();
    assert_eq!(firsts, first_producer.to_vec());
    assert_eq!(seconds, second_producer.to_vec());
}

// A mismatching name yields success(false) and invokes no handler.
#[test]
fn mismatched_name_reports_non_match() {
    let mut dispatcher = EventDispatcher::new("X".to_string());
    let calls = Arc::new(AtomicU8::new(0));
    let counter = Arc::clone(&calls);
    let added = dispatcher.add_handlers(DispatcherCallback::new(move |_e: &EventEnvelope| {
        counter.fetch_add(1, Ordering::SeqCst);
    }));
    assert!(added.is_ok());

    let result = dispatcher.dispatch(&NamedEvent { name: "Y".to_string() });
    assert_eq!(result, Ok(false));
    assert_eq!(calls.load(Ordering::SeqCst), 0);
}

// Three handlers adding 1, 2 and 3 to a shared counter run once each, in
// registration order, leaving the counter at exactly 6.
#[test]
fn handlers_run_once_each_in_registration_order() {
    let mut dispatcher = EventDispatcher::new("X".to_string());
    let counter = Arc::new(AtomicU8::new(0));
    let order = Arc::new(Mutex::new(Vec::new()));
    for step in 1u8..=3u8 {
        let counter = Arc::clone(&counter);
        let order = Arc::clone(&order);
        let added = dispatcher.add_handlers(DispatcherCallback::new(
            move |_e: &EventEnvelope| {
                counter.fetch_add(step, Ordering::SeqCst);
                order.lock().unwrap().push(step);
            },
        ));
        assert!(added.is_ok());
    }

    let result = dispatcher.dispatch(&NamedEvent { name: "X".to_string() });
    assert_eq!(result, Ok(true));
    assert_eq!(counter.load(Ordering::SeqCst), 6);
    assert_eq!(order.lock().unwrap().clone(), vec![1, 2, 3]);
}

// Dispatching while the handler list's lock is held fails with the
// contention error instead of blocking.
#[test]
fn dispatch_under_held_lock_fails_fast() {
    let mut dispatcher = EventDispatcher::new("X".to_string());
    assert!(dispatcher.acquire_handlers_lock());
    let result = dispatcher.dispatch(&NamedEvent { name: "X".to_string() });
    assert!(result.is_err());

    dispatcher.release_handlers_lock();
    let result = dispatcher.dispatch(&NamedEvent { name: "X".to_string() });
    assert_eq!(result, Ok(true));
}

// An emitted Exit event carrying Error(42), once drained and dispatched,
// makes the tick report process status 42.
#[test]
fn exit_event_with_error_code_ends_tick_with_that_status() {
    let mut app = Application::default();
    app.initalize();
    let mut queue = EventQueue::initalize();
    assert!(queue.emit(Box::new(ApplicationEvents::Exit(ExitReason::Error(42)))).is_ok());

    assert_eq!(app.tick(&mut queue), Some(42));
}

// An Exit event carrying the normal reason maps to process status 0; with no
// Exit event the tick keeps running.
#[test]
fn exit_event_with_normal_reason_ends_tick_with_status_zero() {
    let mut app = Application::default();
    app.initalize();
    let mut queue = EventQueue::initalize();

    assert_eq!(app.tick(&mut queue), None);

    assert!(queue.emit(Box::new(ApplicationEvents::ExampleEvent)).is_ok());
    assert_eq!(app.tick(&mut queue), None);

    assert!(queue.emit(Box::new(ApplicationEvents::Exit(ExitReason::Normal))).is_ok());
    assert_eq!(app.tick(&mut queue), Some(0));
}

#[test]
fn exit_status_maps_reasons_to_codes() {
    assert_eq!(exit_status(ExitReason::Normal), 0);
    assert_eq!(exit_status(ExitReason::Error(42)), 42);
    assert_eq!(exit_status(ExitReason::Error(-7)), -7);
}

// Typed retrieval succeeds only at the stored concrete type.
#[test]
fn payload_retrieval_is_type_checked() {
    let store = DynamicStore::new(123i64);
    assert_eq!(store.get_ref::<i64>(), Some(&123i64));
    assert_eq!(store.get_ref::<u64>(), None);
    assert_eq!(store.get_ref::<String>(), None);

    let text_store = DynamicStore::new("carried".to_string());
    assert_eq!(text_store.get_ref::<String>(), Some(&"carried".to_string()));
    assert_eq!(text_store.get_ref::<i64>(), None);
}

// An event carrying coordinates exposes them as the two-element sequence.
#[test]
fn coordinate_event_exposes_both_coordinates() {
    let event = ApplicationEvents::ExampleEventWithData(7, -9);
    let data = event.get_data().expect("coordinates should be carried");
    assert_eq!(data.get_ref::<Vec<i128>>(), Some(&vec![7i128, -9i128]));

    // The payload survives the envelope unchanged.
    let envelope = EventEnvelope::from_event(&event);
    let carried = envelope.get_data().expect("the envelope should keep the payload");
    assert_eq!(carried.get_ref::<Vec<i128>>(), Some(&vec![7i128, -9i128]));
    assert_eq!(carried.get_ref::<Vec<i64>>(), None);
}

#[test]
fn registration_through_application_succeeds() {
    let mut app = Application::default();
    let result = app.on_event("Greeting".to_string(), |_e: &EventEnvelope| {});
    assert!(result.is_none());
}

#[test]
fn application_events_answer_catalog_queries() {
    assert!(ApplicationEvents::has_event("Exit".to_string()));
    assert!(ApplicationEvents::has_event("ExampleEvent".to_string()));
    assert!(ApplicationEvents::has_event("ExampleEventWithData".to_string()));
    assert!(!ApplicationEvents::has_event("WindowEvents".to_string()));

    let event = ApplicationEvents::Exit(ExitReason::Normal);
    assert_eq!(event.get_name(), "Exit");
    assert!(matches!(event.get_category(), EngineEventCategory::Application));
    assert!(event.get_parent_category().is_none());
    assert!(event.get_data().is_some());
    assert!(ApplicationEvents::ExampleEvent.get_data().is_none());
}

// Envelopes compare by routing name alone.
#[test]
fn envelopes_compare_by_name() {
    let with_data = EventEnvelope::from_event(&ApplicationEvents::ExampleEventWithData(1, 2));
    let same_name = EventEnvelope::from_event(&ApplicationEvents::ExampleEventWithData(3, 4));
    let other = EventEnvelope::from_event(&ApplicationEvents::ExampleEvent);
    assert!(with_data == same_name);
    assert!(!(with_data == other));
}
