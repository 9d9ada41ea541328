//! Reason codes of a window lifecycle event.

use vstd::prelude::*;

verus! {

pub const CREATED: u32 = 0;
pub const DESTROYED: u32 = 1;
pub const MINIMIZED: u32 = 2;
pub const RESTORED: u32 = 3;
pub const FOCUSED: u32 = 4;
pub const UNFOCUSED: u32 = 5;

} // verus!
