//! Input events as plain values: what a device reports and what the virtual pad emits.

use vstd::prelude::*;

verus! {

/// The class of an event.
#[derive(Clone, Copy, Debug, PartialEq, Eq, Structural)]
pub enum EventKind {
    /// A digital button; the code names the button.
    Key,
    /// An analog axis; the code names the axis.
    AbsAxis,
    /// Anything else a device may report, such as a synchronisation marker.
    Other,
}

/// One event: its class, its code within that class, and its value.
#[derive(Clone, Copy, Debug, PartialEq, Eq, Structural)]
pub struct Event {
    pub kind: EventKind,
    pub code: u16,
    pub value: i32,
}

impl Event {
    /// A button event.
    pub fn key(code: u16, value: i32) -> (ev: Event)
        ensures
            ev == (Event { kind: EventKind::Key, code, value }),
    {
        Event { kind: EventKind::Key, code, value }
    }

    /// An axis event.
    pub fn axis(code: u16, value: i32) -> (ev: Event)
        ensures
            ev == (Event { kind: EventKind::AbsAxis, code, value }),
    {
        Event { kind: EventKind::AbsAxis, code, value }
    }
}

} // verus!
