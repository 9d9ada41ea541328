//! User-space foundation for a microkernel system: the pure core.
//!
//! Everything here is free of I/O. A function whose answer depends on the
//! kernel takes the kernel's reply as a parameter and says, for every
//! possible reply, what the caller gets; a function that prepares a request
//! returns the exact bytes or words to hand over. The shell around this
//! crate performs the calls.

pub mod console;
pub mod encoding;
pub mod event;
pub mod fs;
pub mod graphics;
pub mod input;
pub mod io;
pub mod ipc;
pub mod mem;
pub mod process;
pub mod sys;
pub mod syscall;
pub mod text;
pub mod time;
pub mod window;
