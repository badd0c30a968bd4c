//! Cursor lock: a two-state machine. The left mouse button locks the
//! cursor, Escape unlocks it. The windowing shell hides the hardware
//! cursor exactly while `mouse_locked` and, while locked, re-centers the
//! cursor on every mouse move using the position this module computes.

use vstd::prelude::*;

use crate::input::{InputEvent, Key};

verus! {

/// Tool to keep the mouse inside the window while navigating.
#[derive(Clone, Copy, PartialEq, Eq, Structural, Debug)]
pub struct MouseGrabber {
    pub mouse_locked: bool,
}

/// One step of the lock machine: the new state and whether the event was
/// handled. Handling is advisory: the caller still forwards the same
/// event to every other listener.
pub open spec fn spec_grabber_step(g: MouseGrabber, event: InputEvent) -> (MouseGrabber, bool) {
    match event {
        InputEvent::Keyboard { key, pressed, repeat } => {
            if key == Key::Escape && pressed && g.mouse_locked {
                (MouseGrabber { mouse_locked: false }, true)
            } else {
                (g, false)
            }
        },
        InputEvent::MouseLeft { pressed } => {
            if pressed && !g.mouse_locked {
                (MouseGrabber { mouse_locked: true }, true)
            } else {
                (g, false)
            }
        },
        InputEvent::Other => (g, false),
    }
}

impl MouseGrabber {
    /// Handle button presses to lock and unlock the mouse: a left-button
    /// press locks an unlocked cursor, an Escape press unlocks a locked
    /// one, and every other event leaves the state alone.
    pub fn process_events(&mut self, event: &InputEvent) -> (handled: bool)
        ensures
            (*final(self), handled) == spec_grabber_step(*old(self), *event),
            handled ==> final(self).mouse_locked != old(self).mouse_locked,
            !handled ==> *final(self) == *old(self),
    {
        match *event {
            InputEvent::Keyboard { key: Key::Escape, pressed: true, repeat: _ } => {
                if self.mouse_locked {
                    self.mouse_locked = false;
                    true
                } else {
                    false
                }
            },
            InputEvent::MouseLeft { pressed: true } => {
                if !self.mouse_locked {
                    self.mouse_locked = true;
                    true
                } else {
                    false
                }
            },
            _ => false,
        }
    }

    /// Call this on every mouse move: while locked it yields the window
    /// center for the shell to move the cursor to, so the cursor never
    /// reaches the window edge while relative deltas keep flowing.
    pub fn process_mouse(&self, width: u32, height: u32) -> (r: Option<(u32, u32)>)
        ensures
            self.mouse_locked ==> r == Some((width / 2, height / 2)),
            !self.mouse_locked ==> r is None,
    {
        if self.mouse_locked {
            Some((width / 2, height / 2))
        } else {
            None
        }
    }
}

} // verus!
