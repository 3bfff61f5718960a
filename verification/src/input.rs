//! Buttons of input devices.
//!
//! A button is identified by plain numbers: a key by its key code, a mouse
//! button by its number, a controller button or hat by the controller it sits
//! on and its place there.

use vstd::prelude::*;

verus! {

/// Where a controller hat (d-pad) points.
#[derive(Clone, Copy, Debug, PartialEq, Eq, Hash, Structural)]
pub enum HatState {
    /// No direction.
    Centered,
    /// Up.
    Up,
    /// Right.
    Right,
    /// Down.
    Down,
    /// Left.
    Left,
    /// Right and up.
    RightUp,
    /// Right and down.
    RightDown,
    /// Left and up.
    LeftUp,
    /// Left and down.
    LeftDown,
}

/// A button on a controller.
#[derive(Clone, Copy, Debug, PartialEq, Eq, Hash, Structural)]
pub struct ControllerButton {
    /// The controller the button sits on.
    pub id: u32,
    /// The button on that controller.
    pub button: u8,
}

/// A hat (d-pad) on a controller, with the direction it points in.
#[derive(Clone, Copy, Debug, PartialEq, Eq, Hash, Structural)]
pub struct ControllerHat {
    /// The controller the hat sits on.
    pub id: u32,
    /// The direction of the hat.
    pub state: HatState,
    /// The hat on that controller.
    pub which: u8,
}

/// Any button an input device reports.
#[derive(Clone, Copy, Debug, PartialEq, Eq, Hash, Structural)]
pub enum Button {
    /// A keyboard key, by its key code.
    Keyboard(u32),
    /// A mouse button, by its number.
    Mouse(u32),
    /// A controller button.
    Controller(ControllerButton),
    /// A controller hat.
    Hat(ControllerHat),
}

impl Button {
    /// Whether the button is a keyboard key.
    pub fn is_key(&self) -> (r: bool)
        ensures
            r == (*self is Keyboard),
    {
        match self {
            Button::Keyboard(_) => true,
            _ => false,
        }
    }

    /// Whether the button is a controller button.
    pub fn is_controller(&self) -> (r: bool)
        ensures
            r == (*self is Controller),
    {
        match self {
            Button::Controller(_) => true,
            _ => false,
        }
    }

    /// Whether the button is a controller hat.
    pub fn is_hat(&self) -> (r: bool)
        ensures
            r == (*self is Hat),
    {
        match self {
            Button::Hat(_) => true,
            _ => false,
        }
    }

    /// Whether the button is a mouse button.
    pub fn is_mouse(&self) -> (r: bool)
        ensures
            r == (*self is Mouse),
    {
        match self {
            Button::Mouse(_) => true,
            _ => false,
        }
    }

    /// The number of the button, whatever device it belongs to: the key code
    /// of a key, the number of a mouse button. Controller buttons and hats
    /// have none.
    ///
    /// A key and a mouse button may share a number, so ask for the kind of
    /// the button first.
    pub fn value(&self) -> (r: Option<u32>)
        ensures
            r == match *self {
                Button::Keyboard(code) => Some(code),
                Button::Mouse(number) => Some(number),
                Button::Controller(_) => None,
                Button::Hat(_) => None,
            },
    {
        match self {
            Button::Keyboard(code) => Some(*code),
            Button::Mouse(number) => Some(*number),
            Button::Controller(_) => None,
            Button::Hat(_) => None,
        }
    }
}

} // verus!
