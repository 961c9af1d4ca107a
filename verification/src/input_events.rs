use vstd::prelude::*;

verus! {

use crate::engine_events::{EngineEvent, EngineEventCategory};
use crate::event::{DynamicStore, Event};

/// The input-level catalog. No concrete input event kind is defined; the one
/// variant keeps the type inhabited, and the membership test admits no name.
#[derive(Debug)]
pub enum InputEvent {
    Unknown,
}

impl Event for InputEvent {
    open spec fn name_spec(&self) -> Seq<char> {
        "InputEvent"@
    }

    open spec fn has_data_spec(&self) -> bool {
        false
    }

    fn get_name(&self) -> (r: String) {
        match self {
            _ => "InputEvent".to_string(),
        }
    }

    fn get_data(&self) -> (r: Option<DynamicStore>) {
        None
    }
}

impl EngineEvent for InputEvent {
    open spec fn category_spec(&self) -> EngineEventCategory {
        EngineEventCategory::Input
    }

    open spec fn parent_category_spec(&self) -> Option<EngineEventCategory> {
        None
    }

    open spec fn has_event_spec(name: Seq<char>) -> bool {
        false
    }

    fn get_category(&self) -> (r: EngineEventCategory) {
        EngineEventCategory::Input
    }

    fn get_parent_category(&self) -> (r: Option<EngineEventCategory>) {
        match self {
            _ => None,
        }
    }

    fn has_event(name: String) -> (r: bool) {
        match name {
            _ => false,
        }
    }
}

} // verus!
