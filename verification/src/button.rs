//! Press detection for a rectangular button.
//!
//! A button becomes pressed when a pointer goes down inside its bound and
//! later comes up anywhere; the press is observed once per frame and reset
//! by the render loop after it reacts. Drawing the button is the
//! embedding's work.

use vstd::prelude::*;

use crate::shapes::{Point, Rect};

verus! {

/// A rectangular pressable region.
pub struct Button {
    /// The hit-test bound.
    pub bound: Rect,
    /// Whether a pointer is currently down on the button.
    pub down: bool,
    /// Whether a full press (down inside the bound, then up) has completed
    /// since the last reset.
    pub pressed: bool,
}

impl Button {
    pub fn new(bound: Rect) -> (r: Button)
        ensures
            r == (Button { bound, down: false, pressed: false }),
    {
        Button { bound, down: false, pressed: false }
    }

    /// Forgets a completed press; called once per frame after the render
    /// loop has reacted to it.
    pub fn reset(&mut self)
        ensures
            *final(self) == (Button { pressed: false, ..*old(self) }),
    {
        self.pressed = false;
    }

    pub fn is_pressed(&self) -> (r: bool)
        ensures
            r == self.pressed,
    {
        self.pressed
    }

    /// Replaces the hit-test bound (after a window-resize relayout).
    pub fn set_bound(&mut self, bound: Rect)
        ensures
            *final(self) == (Button { bound, ..*old(self) }),
    {
        self.bound = bound;
    }

    /// A pointer went down at `(x, y)`: arms the button exactly when the
    /// point is inside the bound.
    pub fn pen_down(&mut self, x: i32, y: i32)
        ensures
            old(self).bound.spec_contains(Point { x, y }) ==> *final(self) == (Button {
                down: true,
                ..*old(self)
            }),
            !old(self).bound.spec_contains(Point { x, y }) ==> *final(self) == *old(self),
    {
        if self.bound.contains(&Point { x, y }) {
            self.down = true;
        }
    }

    /// A pointer came up: completes a press exactly when the button was
    /// armed, wherever the release lands.
    pub fn pen_up(&mut self, x: i32, y: i32)
        ensures
            old(self).down ==> *final(self) == (Button {
                down: false,
                pressed: true,
                ..*old(self)
            }),
            !old(self).down ==> *final(self) == *old(self),
    {
        if self.down {
            self.pressed = true;
            self.down = false;
        }
    }
}

} // verus!
