//! Message identifiers of version 1 of the protocol, client to compositor.

use vstd::prelude::*;

verus! {

/// Asks for a window.
pub const CREATE_WINDOW: u32 = 1;

/// Tells that the buffer of a window was updated.
pub const BUFFER_READY: u32 = 2;

/// Closes a window.
pub const CLOSE_WINDOW: u32 = 3;

} // verus!
