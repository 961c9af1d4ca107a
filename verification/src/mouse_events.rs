use vstd::prelude::*;

verus! {

use crate::engine_events::{EngineEvent, EngineEventCategory};
use crate::event::{DynamicStore, Event};

/// The mouse-level catalog. No concrete mouse event kind is defined; the one
/// variant keeps the type inhabited, and the membership test admits no name.
#[derive(Debug)]
pub enum MouseEvents {
    Unknown,
}

impl Event for MouseEvents {
    open spec fn name_spec(&self) -> Seq<char> {
        "MouseEvents"@
    }

    open spec fn has_data_spec(&self) -> bool {
        false
    }

    fn get_name(&self) -> (r: String) {
        match self {
            _ => "MouseEvents".to_string(),
        }
    }

    fn get_data(&self) -> (r: Option<DynamicStore>) {
        None
    }
}

impl EngineEvent for MouseEvents {
    open spec fn category_spec(&self) -> EngineEventCategory {
        EngineEventCategory::Mouse
    }

    open spec fn parent_category_spec(&self) -> Option<EngineEventCategory> {
        None
    }

    open spec fn has_event_spec(name: Seq<char>) -> bool {
        false
    }

    fn get_category(&self) -> (r: EngineEventCategory) {
        EngineEventCategory::Mouse
    }

    fn get_parent_category(&self) -> (r: Option<EngineEventCategory>) {
        match self {
            _ => None,
        }
    }

    fn has_event(name: String) -> (r: bool) {
        match name {
            _ => false,
        }
    }
}

} // verus!
