//! Message ports.
//!
//! A port is a handle to a bounded first-in first-out queue of messages
//! that the kernel keeps. Sending copies bytes into the queue; receiving
//! copies at most one message out.

use vstd::prelude::*;

use crate::io::Handle;
use crate::syscall::error::{check_error, reply_of, SysError, SysResult};

pub mod flags;
pub mod shm;

verus! {

/// Time to sleep between two looks at an empty queue.
pub const RECV_POLL_INTERVAL: u64 = 10;

/// A handle to a message queue.
#[derive(Debug, PartialEq, Eq)]
pub struct Port {
    handle: Handle,
}

impl View for Port {
    type V = Handle;

    closed spec fn view(&self) -> Handle {
        self.handle
    }
}

/// The port that a reply to a create, connect or duplicate request stands
/// for: the handle is the low 32 bits of the reply.
pub open spec fn port_of(reply: isize) -> SysResult<Handle> {
    match reply_of(reply) {
        Ok(v) => Ok(Handle(v as u32)),
        Err(e) => Err(e),
    }
}

/// How long a receive has waited, out of how long it may.
#[derive(Debug, Clone, Copy, PartialEq, Eq, Structural)]
pub struct RecvWait {
    /// Longest time to wait; 0 means look once and return.
    pub timeout: u64,
    /// Time slept so far.
    pub waited: u64,
}

/// What to do after one look at the queue.
#[derive(Debug, Clone, Copy, PartialEq, Eq)]
pub enum RecvStep {
    /// The receive is over: the bytes received (0 when the time ran out
    /// with the queue still empty) or the error.
    Done(SysResult<usize>),
    /// The queue is empty and time is left: sleep this long, look again.
    Sleep(u64),
}

/// True when the reply of one look says that the queue was empty: no bytes,
/// or the kernel's own timeout.
pub open spec fn is_empty_reply(reply: isize) -> bool {
    reply_of(reply) == Ok::<usize, SysError>(0) || reply_of(reply) == Err::<usize, SysError>(
        SysError::Timeout,
    )
}

/// The time to sleep after an empty look: the interval, or what is left of
/// the timeout if that is less.
pub open spec fn nap(wait: RecvWait) -> u64 {
    if wait.timeout - wait.waited < RECV_POLL_INTERVAL {
        (wait.timeout - wait.waited) as u64
    } else {
        RECV_POLL_INTERVAL
    }
}

/// What follows one look at the queue that was answered by `reply`.
pub open spec fn recv_step(wait: RecvWait, reply: isize) -> RecvStep {
    if is_empty_reply(reply) {
        if wait.waited >= wait.timeout {
            RecvStep::Done(Ok(0))
        } else {
            RecvStep::Sleep(nap(wait))
        }
    } else {
        RecvStep::Done(reply_of(reply))
    }
}

/// The wait after one look that was answered by `reply`.
pub open spec fn recv_wait_after(wait: RecvWait, reply: isize) -> RecvWait {
    match recv_step(wait, reply) {
        RecvStep::Sleep(ms) => RecvWait { timeout: wait.timeout, waited: (wait.waited + ms) as u64 },
        RecvStep::Done(_) => wait,
    }
}

impl RecvWait {
    /// A wait that has not slept yet.
    pub fn new(timeout: u64) -> (w: RecvWait)
        ensures
            w == (RecvWait { timeout, waited: 0 }),
    {
        RecvWait { timeout, waited: 0 }
    }

    /// True when no more time was slept than the timeout allows.
    pub open spec fn wf(self) -> bool {
        self.waited <= self.timeout
    }
}

impl Port {
    /// The port that the kernel registered under a new name. The reply is
    /// the kernel's answer to the registration: `AlreadyExists` when the
    /// name is taken, `LimitReached` when its tables are full.
    pub fn create(reply: isize) -> (r: SysResult<Port>)
        ensures
            r is Ok <==> port_of(reply) is Ok,
            r is Ok ==> r->Ok_0@ == port_of(reply)->Ok_0,
            r is Err ==> r->Err_0 == port_of(reply)->Err_0,
    {
        match check_error(reply) {
            Ok(v) => Ok(Port { handle: Handle::from_raw(#[verifier::truncate] (v as u32)) }),
            Err(e) => Err(e),
        }
    }

    /// The port that the kernel found under an existing name. The reply is
    /// the kernel's answer to the lookup: `NotFound` when no queue has the
    /// name.
    pub fn connect(reply: isize) -> (r: SysResult<Port>)
        ensures
            r is Ok <==> port_of(reply) is Ok,
            r is Ok ==> r->Ok_0@ == port_of(reply)->Ok_0,
            r is Err ==> r->Err_0 == port_of(reply)->Err_0,
    {
        Port::create(reply)
    }

    /// A second owner of the same queue. The reply is the kernel's answer
    /// to the duplication of this port's handle; the queue lives until its
    /// last owner is closed.
    pub fn duplicate(&self, reply: isize) -> (r: SysResult<Port>)
        ensures
            r is Ok <==> port_of(reply) is Ok,
            r is Ok ==> r->Ok_0@ == port_of(reply)->Ok_0,
            r is Err ==> r->Err_0 == port_of(reply)->Err_0,
    {
        Port::create(reply)
    }

    /// The number of bytes that the queue accepted, from the kernel's
    /// reply to a send.
    pub fn send(&self, reply: isize) -> (r: SysResult<usize>)
        ensures
            r == reply_of(reply),
    {
        check_error(reply)
    }

    /// One step of a receive with a timeout. `reply` answers a look at the
    /// queue that does not block. A message ends the receive with its
    /// length, an error with the error. An empty queue ends it with 0 bytes
    /// once the whole timeout was slept, and else asks for a sleep, which
    /// is added to the time waited: the receive never spins and never
    /// sleeps longer than the timeout in all.
    pub fn recv(&self, wait: &mut RecvWait, reply: isize) -> (step: RecvStep)
        ensures
            step == recv_step(*old(wait), reply),
            *final(wait) == recv_wait_after(*old(wait), reply),
            old(wait).wf() ==> final(wait).wf(),
    {
        let answer: SysResult<usize> = check_error(reply);
        let empty: bool = match answer {
            Ok(n) => n == 0,
            Err(SysError::Timeout) => true,
            Err(_) => false,
        };
        if empty {
            if wait.waited >= wait.timeout {
                RecvStep::Done(Ok(0))
            } else {
                let left: u64 = wait.timeout - wait.waited;
                let ms: u64 = if left < RECV_POLL_INTERVAL {
                    left
                } else {
                    RECV_POLL_INTERVAL
                };
                wait.waited = wait.waited + ms;
                RecvStep::Sleep(ms)
            }
        } else {
            RecvStep::Done(answer)
        }
    }

    /// The handle of the queue.
    pub fn handle(&self) -> (h: &Handle)
        ensures
            *h == self@,
    {
        &self.handle
    }
}

/// The wait after `k` looks that all found the queue empty, each followed
/// by the sleep that the step asked for.
pub open spec fn wait_after_empty(timeout: u64, k: nat) -> RecvWait
    decreases k,
{
    if k == 0 {
        RecvWait { timeout, waited: 0 }
    } else {
        recv_wait_after(wait_after_empty(timeout, (k - 1) as nat), 0)
    }
}

/// A receive on a queue that stays empty sleeps the interval each time,
/// never more than the timeout in all, and ends with 0 bytes at the look
/// that follows the last sleep: it neither spins nor hangs.
pub proof fn lemma_recv_times_out(timeout: u64, k: nat)
    ensures
        wait_after_empty(timeout, k).wf(),
        wait_after_empty(timeout, k).timeout == timeout,
        wait_after_empty(timeout, k).waited == if RECV_POLL_INTERVAL * k <= timeout {
            RECV_POLL_INTERVAL * k
        } else {
            timeout as int
        },
        recv_step(wait_after_empty(timeout, k), 0) == RecvStep::Done(Ok(0)) <==> RECV_POLL_INTERVAL
            * k >= timeout,
    decreases k,
{
    if k > 0 {
        lemma_recv_times_out(timeout, (k - 1) as nat);
    }
}

/// A receive with timeout 0 never sleeps: one look at an empty queue ends
/// it with 0 bytes.
pub proof fn lemma_recv_nonblocking(reply: isize)
    requires
        is_empty_reply(reply),
    ensures
        recv_step(RecvWait { timeout: 0, waited: 0 }, reply) == RecvStep::Done(Ok(0)),
{
}

/// The length of the message at the head of a queue, from the kernel's
/// reply to a look that takes nothing out.
pub fn peek(reply: isize) -> (r: SysResult<usize>)
    ensures
        r == reply_of(reply),
{
    check_error(reply)
}

/// Decodes the reply to the creation of an unnamed port of some capacity.
pub fn create_port(reply: isize) -> (r: SysResult<Port>)
    ensures
        r is Ok <==> port_of(reply) is Ok,
        r is Ok ==> r->Ok_0@ == port_of(reply)->Ok_0,
        r is Err ==> r->Err_0 == port_of(reply)->Err_0,
{
    Port::create(reply)
}

} // verus!
