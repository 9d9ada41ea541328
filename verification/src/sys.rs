//! Information about the system, and the kernel's log.

use vstd::prelude::*;

use crate::syscall::error::{check_done, check_error, done_of, reply_of, SysError, SysResult};

verus! {

/// Debug command: write to the kernel's log.
pub const DEBUG_PRINT: usize = 0x01;

/// Debug command: stop in the debugger.
pub const DEBUG_BREAK: usize = 0x04;

/// What the kernel tells of the system.
#[derive(Debug, Clone, Copy, PartialEq, Eq, Structural, Default)]
pub struct SysInfo {
    pub kernel_version: u32,
    pub abi_version: u32,
    pub total_memory: u64,
    pub free_memory: u64,
    pub uptime_ms: u64,
    pub num_cpus: u32,
    pub num_processes: u32,
}

/// What the kernel told of the system: `filled` when the call succeeded.
pub fn sysinfo(reply: isize, filled: SysInfo) -> (r: SysResult<SysInfo>)
    ensures
        r == match done_of(reply) {
            Ok(_) => Ok::<SysInfo, SysError>(filled),
            Err(e) => Err::<SysInfo, SysError>(e),
        },
{
    match check_done(reply) {
        Ok(_) => Ok(filled),
        Err(e) => Err(e),
    }
}

/// The number of bytes that went to the kernel's log.
pub fn kprint(reply: isize) -> (r: SysResult<usize>)
    ensures
        r == reply_of(reply),
{
    check_error(reply)
}

} // verus!
