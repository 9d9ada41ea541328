//! Clocks and sleeping.

use vstd::prelude::*;

use crate::syscall::error::{
    check_done, check_wide, done_of, error_of, wide_reply_of, SysError, SysResult,
};

verus! {

/// Milliseconds in one tick of the boot timer, which runs at 100 Hz.
pub const MS_PER_TICK: u64 = 10;

/// A clock of the kernel.
#[derive(Debug, Clone, Copy, PartialEq, Eq, Structural)]
pub enum ClockId {
    Realtime,
    Monotonic,
    ProcessCpu,
    ThreadCpu,
}

impl ClockId {
    /// The number that the kernel knows the clock by.
    pub fn code(self) -> (c: u32)
        ensures
            c == match self {
                ClockId::Realtime => 0u32,
                ClockId::Monotonic => 1u32,
                ClockId::ProcessCpu => 2u32,
                ClockId::ThreadCpu => 3u32,
            },
    {
        match self {
            ClockId::Realtime => 0,
            ClockId::Monotonic => 1,
            ClockId::ProcessCpu => 2,
            ClockId::ThreadCpu => 3,
        }
    }
}

/// A time: whole seconds and the nanoseconds of the second begun.
#[derive(Debug, Clone, Copy, PartialEq, Eq, Structural, Default)]
pub struct TimeSpec {
    pub seconds: u64,
    pub nanoseconds: u32,
    pub _pad: u32,
}

impl TimeSpec {
    /// The time in whole milliseconds.
    pub open spec fn millis(self) -> int {
        self.seconds * 1000 + self.nanoseconds / 1_000_000
    }

    /// The time in whole milliseconds.
    pub fn to_millis(&self) -> (ms: u64)
        requires
            self.millis() <= u64::MAX,
        ensures
            ms == self.millis(),
    {
        self.seconds * 1000 + (self.nanoseconds / 1_000_000) as u64
    }

    /// The time in whole milliseconds; nothing when they do not fit 64
    /// bits.
    pub fn checked_to_millis(&self) -> (ms: Option<u64>)
        ensures
            self.millis() <= u64::MAX ==> ms == Some(self.millis() as u64),
            self.millis() > u64::MAX ==> ms is None,
    {
        let sub: u64 = (self.nanoseconds / 1_000_000) as u64;
        if self.seconds > (u64::MAX - sub) / 1000 {
            None
        } else {
            Some(self.seconds * 1000 + sub)
        }
    }

    /// The time that is `ms` milliseconds.
    pub fn from_millis(ms: u64) -> (t: TimeSpec)
        ensures
            t.seconds == ms / 1000,
            t.nanoseconds == (ms % 1000) * 1_000_000,
            t._pad == 0,
            t.millis() == ms,
    {
        TimeSpec { seconds: ms / 1000, nanoseconds: ((ms % 1000) * 1_000_000) as u32, _pad: 0 }
    }
}

/// The time of a clock: `filled` when the kernel's call succeeded.
pub fn clock_get(reply: isize, filled: TimeSpec) -> (r: SysResult<TimeSpec>)
    ensures
        r == match done_of(reply) {
            Ok(_) => Ok::<TimeSpec, SysError>(filled),
            Err(e) => Err::<TimeSpec, SysError>(e),
        },
{
    match check_done(reply) {
        Ok(_) => Ok(filled),
        Err(e) => Err(e),
    }
}

/// What a sleep came to: the value that the kernel replied.
pub fn sleep(reply: isize) -> (r: SysResult<u64>)
    ensures
        r == wide_reply_of(reply),
{
    check_wide(reply)
}

/// The time since boot, from the reply to a read of the monotonic clock.
pub fn monotonic(reply: isize, filled: TimeSpec) -> (r: SysResult<TimeSpec>)
    ensures
        r == match done_of(reply) {
            Ok(_) => Ok::<TimeSpec, SysError>(filled),
            Err(e) => Err::<TimeSpec, SysError>(e),
        },
{
    clock_get(reply, filled)
}

/// The milliseconds since boot, from the reply to a read of the monotonic
/// clock.
pub fn clock(reply: isize, filled: TimeSpec) -> (r: SysResult<u64>)
    requires
        reply >= 0 ==> filled.millis() <= u64::MAX,
    ensures
        r == (if reply < 0 {
            Err::<u64, SysError>(error_of(reply))
        } else {
            Ok::<u64, SysError>(filled.millis() as u64)
        }),
{
    match monotonic(reply, filled) {
        Ok(t) => Ok(t.to_millis()),
        Err(e) => Err(e),
    }
}

/// The milliseconds since boot, from the ticks of the boot timer.
pub fn uptime_ms(ticks: u64) -> (ms: u64)
    requires
        ticks * MS_PER_TICK <= u64::MAX,
    ensures
        ms == ticks * MS_PER_TICK,
{
    ticks * MS_PER_TICK
}

} // verus!
