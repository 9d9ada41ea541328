//! Readiness bits of a poll descriptor.

use vstd::prelude::*;

verus! {

/// Data can be read.
pub const IN: u16 = 0x01;

/// There is room to write.
pub const OUT: u16 = 0x02;

/// The handle is in error.
pub const ERR: u16 = 0x04;

/// The peer hung up.
pub const HUP: u16 = 0x08;

/// The handle is not valid.
pub const NVAL: u16 = 0x10;

} // verus!
