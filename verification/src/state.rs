//! Event types shared by the input sampler, the tick source and the navigator.

use vstd::prelude::*;

verus! {

/// Capacity of the event channel between the producers and the navigator.
/// Ten entries give headroom for a burst of button presses.
pub const UI_CHANNEL_SIZE: usize = 10;

/// A discrete button press, produced on an inactive-to-active edge of the
/// matching bit of a [`crate::input::ButtonSet`] sample.
#[derive(Copy, Clone, Debug, PartialEq, Eq, Structural)]
pub enum ButtonEvent {
    Up,
    Down,
    Left,
    Right,
    A,
    B,
    C,
    D,
}

/// Everything the navigator consumes: button presses and periodic ticks.
#[derive(Copy, Clone, Debug, PartialEq, Eq, Structural)]
pub enum UIEvent {
    Button(ButtonEvent),
    Tick,
}

} // verus!
