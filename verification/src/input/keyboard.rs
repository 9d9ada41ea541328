//! Keyboard events.

use vstd::prelude::*;

use crate::syscall::error::{check_error, error_of, reply_of, SysError, SysResult};

verus! {

/// A key went down or up.
#[derive(Debug, Clone, Copy, PartialEq, Eq, Default)]
pub struct KeyEvent {
    /// Scan code of the key.
    pub scancode: u8,
    /// True when the key went down, false when it went up.
    pub pressed: bool,
    pub _pad: [u8; 6],
}

impl KeyEvent {
    /// True when the key went down.
    pub fn is_press(&self) -> (b: bool)
        ensures
            b == self.pressed,
    {
        self.pressed
    }

    /// True when the key went up.
    pub fn is_release(&self) -> (b: bool)
        ensures
            b == !self.pressed,
    {
        !self.pressed
    }
}

/// The number of events that the kernel wrote into a buffer with room for
/// `capacity` events. Where there is no room no call is made, and `reply`
/// is not read.
pub fn poll_keyboard(capacity: usize, reply: isize) -> (r: SysResult<usize>)
    ensures
        r == (if capacity == 0 {
            Ok::<usize, SysError>(0)
        } else {
            reply_of(reply)
        }),
{
    if capacity == 0 {
        return Ok(0);
    }
    check_error(reply)
}

/// One key event if there was one: `filled` when the kernel said that it
/// wrote an event.
pub fn read_key(reply: isize, filled: KeyEvent) -> (r: SysResult<Option<KeyEvent>>)
    ensures
        r == (if reply < 0 {
            Err::<Option<KeyEvent>, SysError>(error_of(reply))
        } else if reply > 0 {
            Ok::<Option<KeyEvent>, SysError>(Some(filled))
        } else {
            Ok::<Option<KeyEvent>, SysError>(None)
        }),
{
    match check_error(reply) {
        Err(e) => Err(e),
        Ok(n) => if n > 0 {
            Ok(Some(filled))
        } else {
            Ok(None)
        },
    }
}

} // verus!
