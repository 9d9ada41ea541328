//! Kinds of input event.

use vstd::prelude::*;

verus! {

pub const KEY_DOWN: u32 = 1;
pub const KEY_UP: u32 = 2;
pub const MOUSE_MOVE: u32 = 3;
pub const MOUSE_DOWN: u32 = 4;
pub const MOUSE_UP: u32 = 5;

} // verus!
