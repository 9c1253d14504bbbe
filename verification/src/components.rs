pub mod command;
pub mod connections;
pub mod databases;
pub mod error;
pub mod help;
pub mod properties;
pub mod record_table;
pub mod sql_editor;
pub mod tab;
pub mod table;

use vstd::prelude::*;

verus! {

/// Whether a handler consumed an input event. An event that no stage
/// consumes is reported upward unchanged and produces no state change.
#[derive(Clone, Copy, Debug, PartialEq, Eq, Structural)]
pub enum EventState {
    Consumed,
    NotConsumed,
}

impl EventState {
    pub fn is_consumed(&self) -> (r: bool)
        ensures
            r == (*self is Consumed),
    {
        matches!(*self, EventState::Consumed)
    }
}

} // verus!
