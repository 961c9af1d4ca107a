use vstd::prelude::*;

verus! {

use crate::event::Event;

/// The engine-side grouping of event kinds.
#[derive(Debug, Clone, Copy, PartialEq, Eq, Structural)]
pub enum EngineEventCategory {
    Application,
    Window,
    Input,
    Keyboard,
    Mouse,
}

/// An event kind that belongs to the engine's catalog: it carries a category,
/// an optional parent category, and a static membership test over routing
/// names.
pub trait EngineEvent: Event {
    /// The category of this event kind. Unless an implementation says
    /// otherwise, nothing is known of it.
    open spec fn category_spec(&self) -> EngineEventCategory {
        arbitrary()
    }

    /// The parent category of this event kind, if it has one. Unless an
    /// implementation says otherwise, nothing is known of it.
    open spec fn parent_category_spec(&self) -> Option<EngineEventCategory> {
        arbitrary()
    }

    /// Whether `name` names an event kind of this catalog. Unless an
    /// implementation says otherwise, nothing is known of it.
    open spec fn has_event_spec(name: Seq<char>) -> bool {
        arbitrary()
    }

    fn get_category(&self) -> (r: EngineEventCategory)
        ensures
            r == self.category_spec(),
    ;

    fn get_parent_category(&self) -> (r: Option<EngineEventCategory>)
        ensures
            r == self.parent_category_spec(),
    ;

    fn has_event(name: String) -> (r: bool)
        ensures
            r == Self::has_event_spec(name@),
    ;
}

} // verus!
