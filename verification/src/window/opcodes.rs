//! Message identifiers of the window protocol. The first four bytes of every
//! frame hold one of them.

use vstd::prelude::*;

verus! {

// Client to server
pub const CREATE_WINDOW: u32 = 0x01;
pub const DESTROY_WINDOW: u32 = 0x02;
pub const COMMIT_BUFFER: u32 = 0x03;
pub const INPUT_UPDATE: u32 = 0x04;
pub const MINIMIZE_WINDOW: u32 = 0x05;
pub const RESTORE_WINDOW: u32 = 0x06;
pub const REGISTER_TASKBAR: u32 = 0x07;
pub const SET_WINDOW_FLAGS: u32 = 0x08;
pub const MOVE_WINDOW: u32 = 0x09;
pub const RESIZE_WINDOW: u32 = 0x0A;

// Server to client
pub const WINDOW_CREATED: u32 = 0x10;
pub const EVENT_INPUT: u32 = 0x20;
pub const EVENT_RESIZE: u32 = 0x21;
pub const EVENT_WINDOW_LIFECYCLE: u32 = 0x22;
pub const EVENT_FOCUS: u32 = 0x23;
pub const ERROR: u32 = 0xFF;

} // verus!
