pub mod application;
pub mod application_events;
pub mod engine_events;
pub mod event;
pub mod event_dispatcher;
pub mod event_queue;
pub mod input_events;
pub mod keyboard_events;
pub mod mouse_events;
pub mod window_events;
