//! Mouse state.

use vstd::prelude::*;

use crate::graphics::geometry::Point;
use crate::syscall::error::{check_done, done_of, SysError, SysResult};

verus! {

/// A mouse button.
#[derive(Debug, Clone, Copy, PartialEq, Eq, Structural)]
pub enum MouseButton {
    Left,
    Right,
    Middle,
    Button4,
    Button5,
}

/// The bit of each button in `MouseState::buttons`.
pub open spec fn button_mask(button: MouseButton) -> u8 {
    match button {
        MouseButton::Left => 0x01,
        MouseButton::Right => 0x02,
        MouseButton::Middle => 0x04,
        MouseButton::Button4 => 0x08,
        MouseButton::Button5 => 0x10,
    }
}

impl MouseButton {
    /// The bit of this button.
    pub fn mask(self) -> (m: u8)
        ensures
            m == button_mask(self),
    {
        match self {
            MouseButton::Left => 0x01,
            MouseButton::Right => 0x02,
            MouseButton::Middle => 0x04,
            MouseButton::Button4 => 0x08,
            MouseButton::Button5 => 0x10,
        }
    }
}

/// Where the mouse is, how far it moved since it was last read, and which
/// buttons are down.
#[derive(Debug, Clone, Copy, PartialEq, Eq, Default)]
pub struct MouseState {
    pub x: i32,
    pub y: i32,
    pub delta_x: i32,
    pub delta_y: i32,
    /// One bit per button that is down.
    pub buttons: u8,
    pub _pad: [u8; 3],
}

impl MouseState {
    /// The position.
    pub fn position(&self) -> (p: Point)
        ensures
            p == (Point { x: self.x, y: self.y }),
    {
        Point::new(self.x, self.y)
    }

    /// The movement since the last read.
    pub fn delta(&self) -> (p: Point)
        ensures
            p == (Point { x: self.delta_x, y: self.delta_y }),
    {
        Point::new(self.delta_x, self.delta_y)
    }

    /// True when `button` is down.
    pub fn is_pressed(&self, button: MouseButton) -> (b: bool)
        ensures
            b == ((self.buttons & button_mask(button)) != 0),
    {
        (self.buttons & button.mask()) != 0
    }

    /// True when the left button is down.
    pub fn left_button(&self) -> (b: bool)
        ensures
            b == ((self.buttons & 0x01) != 0),
    {
        self.is_pressed(MouseButton::Left)
    }

    /// True when the right button is down.
    pub fn right_button(&self) -> (b: bool)
        ensures
            b == ((self.buttons & 0x02) != 0),
    {
        self.is_pressed(MouseButton::Right)
    }

    /// True when the middle button is down.
    pub fn middle_button(&self) -> (b: bool)
        ensures
            b == ((self.buttons & 0x04) != 0),
    {
        self.is_pressed(MouseButton::Middle)
    }

    /// True when any button is down.
    pub fn any_button(&self) -> (b: bool)
        ensures
            b == (self.buttons != 0),
    {
        self.buttons != 0
    }
}

/// The state of the mouse: `filled` when the kernel's read succeeded.
pub fn poll_mouse(reply: isize, filled: MouseState) -> (r: SysResult<MouseState>)
    ensures
        r == match done_of(reply) {
            Ok(_) => Ok::<MouseState, SysError>(filled),
            Err(e) => Err::<MouseState, SysError>(e),
        },
{
    match check_done(reply) {
        Ok(_) => Ok(filled),
        Err(e) => Err(e),
    }
}

} // verus!
