//! Plain-value models of the input events the translation engine reads and
//! the absolute-axis events it produces.

use vstd::prelude::*;

verus! {

/// Event type code for relative-axis events (horizontal mouse motion among them).
pub const EV_REL: u16 = 2;

/// Event type code for absolute-axis events (the virtual wheel's position).
pub const EV_ABS: u16 = 3;

/// Event code for the horizontal relative axis.
pub const REL_X: u16 = 0;

/// Event code for the horizontal absolute axis.
pub const ABS_X: u16 = 0;

/// One event read from the selected input device: its type, its axis or key
/// code, and its signed value.
#[derive(Clone, Copy, PartialEq, Eq, Structural, Debug)]
pub struct InputEventData {
    pub event_type: u16,
    pub code: u16,
    pub value: i32,
}

/// The event is horizontal relative motion; only such events move the wheel.
pub open spec fn is_rel_x(ev: InputEventData) -> bool {
    ev.event_type == EV_REL && ev.code == REL_X
}

/// An absolute-axis event to be emitted on the virtual wheel device.
#[derive(Clone, Copy, PartialEq, Eq, Structural, Debug)]
pub struct OutputEvent {
    pub event_type: u16,
    pub code: u16,
    pub value: i32,
}

/// Decides whether an event is horizontal relative motion.
pub fn event_is_rel_x(ev: &InputEventData) -> (r: bool)
    ensures
        r == is_rel_x(*ev),
{
    ev.event_type == EV_REL && ev.code == REL_X
}

} // verus!
