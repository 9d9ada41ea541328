//! Message identifiers of version 1 of the protocol, compositor to client.

use vstd::prelude::*;

verus! {

/// A window was created.
pub const WINDOW_CREATED: u32 = 100;

/// A request was refused.
pub const ERROR: u32 = 101;

} // verus!
