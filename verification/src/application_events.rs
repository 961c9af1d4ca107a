use vstd::prelude::*;

verus! {

use crate::application::ExitReason;
use crate::engine_events::{EngineEvent, EngineEventCategory};
use crate::event::{DynamicStore, Event};

/// The application-level event kinds: the exit request and two example kinds,
/// one bare and one carrying a pair of coordinates.
#[derive(Debug)]
pub enum ApplicationEvents {
    Exit(ExitReason),
    ExampleEvent,
    ExampleEventWithData(i128, i128),
}

impl Event for ApplicationEvents {
    open spec fn name_spec(&self) -> Seq<char> {
        match self {
            ApplicationEvents::Exit(_) => "Exit"@,
            ApplicationEvents::ExampleEvent => "ExampleEvent"@,
            ApplicationEvents::ExampleEventWithData(_, _) => "ExampleEventWithData"@,
        }
    }

    open spec fn has_data_spec(&self) -> bool {
        !(self is ExampleEvent)
    }

    fn get_name(&self) -> (r: String) {
        match self {
            ApplicationEvents::Exit(_) => "Exit".to_string(),
            ApplicationEvents::ExampleEvent => "ExampleEvent".to_string(),
            ApplicationEvents::ExampleEventWithData(_, _) => "ExampleEventWithData".to_string(),
        }
    }

    fn get_data(&self) -> (r: Option<DynamicStore>) {
        match self {
            ApplicationEvents::ExampleEventWithData(coord_x, coord_y) => {
                let coords: Vec<i128> = vec![*coord_x, *coord_y];
                Some(DynamicStore::new(coords))
            },
            ApplicationEvents::Exit(exit) => Some(DynamicStore::new(*exit)),
            ApplicationEvents::ExampleEvent => None,
        }
    }
}

impl EngineEvent for ApplicationEvents {
    open spec fn category_spec(&self) -> EngineEventCategory {
        EngineEventCategory::Application
    }

    open spec fn parent_category_spec(&self) -> Option<EngineEventCategory> {
        None
    }

    open spec fn has_event_spec(name: Seq<char>) -> bool {
        ||| name == "ExampleEvent"@
        ||| name == "ExampleEventWithData"@
        ||| name == "Exit"@
    }

    fn get_category(&self) -> (r: EngineEventCategory) {
        EngineEventCategory::Application
    }

    fn get_parent_category(&self) -> (r: Option<EngineEventCategory>) {
        None
    }

    fn has_event(name: String) -> (r: bool) {
        name == "ExampleEvent".to_string() || name == "ExampleEventWithData".to_string()
            || name == "Exit".to_string()
    }
}

} // verus!
