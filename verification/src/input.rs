//! Plain input vocabulary consumed by the scene state.
//!
//! The windowing shell translates its own key and button events into these
//! types; the library's state machines are defined over them alone.

use vstd::prelude::*;

verus! {

/// A physical key the scene reacts to. Keys the scene does not use map to
/// `Other`.
#[derive(Clone, Copy, PartialEq, Eq, Structural, Debug)]
pub enum Key {
    /// Move forward.
    W,
    /// Move left.
    A,
    /// Move backward.
    S,
    /// Move right.
    D,
    /// Move up.
    Space,
    /// Move down.
    ShiftLeft,
    /// Look left.
    ArrowLeft,
    /// Look right.
    ArrowRight,
    /// Look up.
    ArrowUp,
    /// Look down.
    ArrowDown,
    /// Toggle the help overlay.
    H,
    /// Unlock the cursor.
    Escape,
    /// Increase the instance-grid dimension.
    J,
    /// Decrease the instance-grid dimension.
    K,
    /// Toggle spinning.
    Digit1,
    /// Cycle the grid model's material while held.
    Digit2,
    /// Toggle the ping-pong resize animation.
    Digit3,
    /// Any key without a meaning here.
    Other,
}

/// A window event, reduced to what the scene's state machines consult.
#[derive(Clone, Copy, PartialEq, Eq, Structural, Debug)]
pub enum InputEvent {
    /// A key changed state (or auto-repeated, with `repeat` set).
    Keyboard { key: Key, pressed: bool, repeat: bool },
    /// The left mouse button changed state.
    MouseLeft { pressed: bool },
    /// Any other window event.
    Other,
}

/// A scroll-wheel event: line deltas drive the camera, pixel deltas are
/// accepted but produce no motion. The line delta is in thousandths of a
/// line.
#[derive(Clone, Copy, PartialEq, Eq, Structural, Debug)]
pub enum ScrollDelta {
    Line(i64),
    Pixel(i64, i64),
}

} // verus!
