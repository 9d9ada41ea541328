//! System call numbers. They must match the kernel's table exactly.

use vstd::prelude::*;

verus! {

// Process
pub const SYS_EXIT: usize = 0x01;
pub const SYS_SPAWN: usize = 0x02;
pub const SYS_WAIT: usize = 0x03;
pub const SYS_YIELD: usize = 0x04;
pub const SYS_GETPID: usize = 0x05;
pub const SYS_GETTASKINFO: usize = 0x06;

// Memory
pub const SYS_ALLOC: usize = 0x10;
pub const SYS_FREE: usize = 0x11;
pub const SYS_MAP: usize = 0x12;
pub const SYS_UNMAP: usize = 0x13;

// Handles
pub const SYS_HANDLE_DUP: usize = 0x20;
pub const SYS_HANDLE_CLOSE: usize = 0x21;
pub const SYS_CHECK_RIGHTS: usize = 0x22;

// Message ports
pub const SYS_CREATE_PORT: usize = 0x30;
pub const SYS_SEND_MSG: usize = 0x31;
pub const SYS_RECV_MSG: usize = 0x32;

// Graphics and input
pub const SYS_FB_INFO: usize = 0x40;
pub const SYS_FB_WRITE: usize = 0x41;
pub const SYS_FB_CLEAR: usize = 0x42;
pub const SYS_MOUSE_READ: usize = 0x48;
pub const SYS_KEYBOARD_READ: usize = 0x49;

// Time
pub const SYS_CLOCK_GET: usize = 0x50;
pub const SYS_SLEEP: usize = 0x51;

// Filesystem
pub const SYS_OPEN: usize = 0x60;
pub const SYS_CLOSE: usize = 0x61;
pub const SYS_READ: usize = 0x62;
pub const SYS_WRITE: usize = 0x63;
pub const SYS_STAT: usize = 0x64;
pub const SYS_FSTAT: usize = 0x65;
pub const SYS_LSEEK: usize = 0x66;

// Events
pub const SYS_POLL: usize = 0x80;

// System
pub const SYS_SYSINFO: usize = 0xF0;
pub const SYS_REBOOT: usize = 0xF1;
pub const SYS_POWEROFF: usize = 0xF2;
pub const SYS_CONSOLE_WRITE: usize = 0xF3;
pub const SYS_CONSOLE_READ: usize = 0xF4;
pub const SYS_DEBUG: usize = 0xFF;

} // verus!
