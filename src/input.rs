//! Decisions taken on user input
//!
//! The window system's events are mapped onto the plain types of this module;
//! what the input means for the viewer is decided here.

use vstd::prelude::*;

verus! {

/// The actions that input asks the viewer to take
#[derive(Clone, Copy, Debug, PartialEq, Eq, Structural)]
pub struct Actions {
    pub exit: bool,
    pub toggle_model: bool,
    pub toggle_mesh: bool,
}

impl Actions {
    pub fn new() -> (r: Self)
        ensures
            !r.exit,
            !r.toggle_model,
            !r.toggle_mesh,
    {
        Actions { exit: false, toggle_model: false, toggle_mesh: false }
    }
}

/// A key, as far as the viewer tells keys apart
#[derive(Clone, Copy, Debug, PartialEq, Eq, Structural)]
pub enum Key {
    Escape,
    Key1,
    Key2,
    Other,
}

/// A mouse button, as far as the viewer tells buttons apart
#[derive(Clone, Copy, Debug, PartialEq, Eq, Structural)]
pub enum MouseButton {
    Left,
    Right,
    Other,
}

/// Whether a key or a button went down or up
#[derive(Clone, Copy, Debug, PartialEq, Eq, Structural)]
pub enum ElementState {
    Pressed,
    Released,
}

/// The actions after a key event
pub open spec fn actions_after_key(actions: Actions, key: Key, state: ElementState) -> Actions {
    if state == ElementState::Pressed {
        match key {
            Key::Escape => Actions { exit: true, ..actions },
            Key::Key1 => Actions { toggle_model: true, ..actions },
            Key::Key2 => Actions { toggle_mesh: true, ..actions },
            Key::Other => actions,
        }
    } else {
        actions
    }
}

/// Record the action that a key event asks for
pub fn handle_keyboard_input(key: Key, state: ElementState, actions: &mut Actions)
    ensures
        *final(actions) == actions_after_key(*old(actions), key, state),
{
    if state == ElementState::Pressed {
        match key {
            Key::Escape => actions.exit = true,
            Key::Key1 => actions.toggle_model = true,
            Key::Key2 => actions.toggle_mesh = true,
            Key::Other => {},
        }
    }
}

/// Which drag modes the mouse buttons have switched on
#[derive(Clone, Copy, Debug, PartialEq, Eq, Structural)]
pub struct DragState {
    pub rotating: bool,
    pub moving: bool,
}

impl DragState {
    pub fn new() -> (r: Self)
        ensures
            !r.rotating,
            !r.moving,
    {
        DragState { rotating: false, moving: false }
    }

    /// The left button rotates while it is down, the right button moves
    pub fn handle_mouse_input(&mut self, button: MouseButton, state: ElementState)
        ensures
            final(self).rotating == if button == MouseButton::Left {
                state == ElementState::Pressed
            } else {
                old(self).rotating
            },
            final(self).moving == if button == MouseButton::Right {
                state == ElementState::Pressed
            } else {
                old(self).moving
            },
    {
        match button {
            MouseButton::Left => self.rotating = state == ElementState::Pressed,
            MouseButton::Right => self.moving = state == ElementState::Pressed,
            MouseButton::Other => {},
        }
    }
}

} // verus!
