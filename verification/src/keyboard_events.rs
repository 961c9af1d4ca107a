use vstd::prelude::*;

verus! {

use crate::engine_events::{EngineEvent, EngineEventCategory};
use crate::event::{DynamicStore, Event};

/// The keyboard-level catalog. No concrete keyboard event kind is defined; the one
/// variant keeps the type inhabited, and the membership test admits no name.
#[derive(Debug)]
pub enum KeyboardEvent {
    Unknown,
}

impl Event for KeyboardEvent {
    open spec fn name_spec(&self) -> Seq<char> {
        "KeyboardEvent"@
    }

    open spec fn has_data_spec(&self) -> bool {
        false
    }

    fn get_name(&self) -> (r: String) {
        match self {
            _ => "KeyboardEvent".to_string(),
        }
    }

    fn get_data(&self) -> (r: Option<DynamicStore>) {
        None
    }
}

impl EngineEvent for KeyboardEvent {
    open spec fn category_spec(&self) -> EngineEventCategory {
        EngineEventCategory::Keyboard
    }

    open spec fn parent_category_spec(&self) -> Option<EngineEventCategory> {
        None
    }

    open spec fn has_event_spec(name: Seq<char>) -> bool {
        false
    }

    fn get_category(&self) -> (r: EngineEventCategory) {
        EngineEventCategory::Keyboard
    }

    fn get_parent_category(&self) -> (r: Option<EngineEventCategory>) {
        match self {
            _ => None,
        }
    }

    fn has_event(name: String) -> (r: bool) {
        match name {
            _ => false,
        }
    }
}

} // verus!
