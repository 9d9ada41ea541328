//! Flags of a send.

use vstd::prelude::*;

verus! {

/// Do not block when the queue is full.
pub const NONBLOCK: u32 = 0x1;

/// Deliver before messages that are not urgent.
pub const URGENT: u32 = 0x2;

} // verus!
