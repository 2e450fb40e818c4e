//! The input that a driver delivers to a tree of widgets.

use vstd::prelude::*;
use crate::geometry::Point;

verus! {

/// A key of the keyboard.
#[derive(Clone, Copy, Debug, PartialEq, Eq, Structural)]
pub enum KeyCode {
    Enter,
    Escape,
    Space,
    Tab,
    Backspace,
    Delete,
    Up,
    Down,
    Left,
    Right,
    Char(char),
}

/// One occurrence of user input. An event names no target: the traversal
/// decides which node takes it.
#[derive(Clone, Copy, Debug, PartialEq, Eq, Structural)]
pub enum Event {
    Click(Point),
    Hover(Point),
    KeyPress(KeyCode),
    FocusChange(bool),
    /// The wheel moved by this many tenths of a notch.
    MouseWheel(i64),
}

/// What a tick hands to every node. It carries nothing yet.
#[derive(Clone, Copy, Debug, PartialEq, Eq, Structural)]
pub struct UpdateContext {}

/// One thing that a traversal brings to a node: an event that it offers, or
/// a tick.
#[derive(Clone, Copy, Debug, PartialEq, Eq, Structural)]
pub enum Input {
    Event(Event),
    Tick(UpdateContext),
}

impl Default for UpdateContext {
    fn default() -> (ctx: UpdateContext)
        ensures
            ctx == (UpdateContext {}),
    {
        UpdateContext {}
    }
}

} // verus!
