//! What holds of every handshake: it binds a name that is free, it ends,
//! it refuses what is not a whole answer, and it never lets go of a port
//! that it opened.

use vstd::prelude::*;

use crate::io::Handle;
use crate::ipc::port_of;
use crate::syscall::error::SysError;
use crate::window::client::{ActionView, Geometry, HandshakeView, Stage, HANDSHAKE_TIMEOUT};
use crate::window::naming::{reply_port_name, REPLY_PORT_CAPACITY, REPLY_PORT_ATTEMPTS};
use crate::window::opcodes;
use crate::window::protocol::opcode_of;

verus! {

/// While every name is taken, the handshake asks for the next name; when
/// the last name is taken too, it fails with `AlreadyExists`, with no port
/// open. `after_conflicts(v, k)` is the state after `k` such replies.
pub open spec fn after_conflicts(v: HandshakeView, k: nat) -> HandshakeView
    decreases k,
{
    if k == 0 {
        v
    } else {
        after_conflicts(v, (k - 1) as nat).after(-7isize, Seq::<u8>::empty())
    }
}

/// The state after `k` looks at a reply port that stays empty.
pub open spec fn after_silence(v: HandshakeView, k: nat) -> HandshakeView
    decreases k,
{
    if k == 0 {
        v
    } else {
        after_silence(v, (k - 1) as nat).after(0isize, Seq::<u8>::empty())
    }
}

/// A client whose names are all taken makes exactly `REPLY_PORT_ATTEMPTS`
/// attempts, with the suffixes from 0 on in turn, each under a name of its
/// own. The refusal of the last attempt ends the handshake with
/// `AlreadyExists`: it does not hang, it asks for no further name, and it
/// holds no port.
pub proof fn lemma_naming_conflict_ends(geometry: Geometry, k: nat)
    requires
        k <= REPLY_PORT_ATTEMPTS,
    ensures
        after_conflicts(HandshakeView::start(geometry), k).wf(),
        k < REPLY_PORT_ATTEMPTS ==> {
            let now = after_conflicts(HandshakeView::start(geometry), k);
            &&& now.stage == Stage::BindingReplyPort
            &&& now.seed == k
            &&& now.action() == (ActionView::CreatePort {
                name: reply_port_name(k as u32),
                capacity: REPLY_PORT_CAPACITY,
            })
        },
        k == REPLY_PORT_ATTEMPTS ==> {
            let end = after_conflicts(HandshakeView::start(geometry), k);
            &&& end.stage == Stage::Failed
            &&& end.error == Some(SysError::AlreadyExists)
            &&& end.open_ports() == Seq::<Handle>::empty()
            &&& end.action() == ActionView::Finish
        },
    decreases k,
{
    let start = HandshakeView::start(geometry);
    if k > 0 {
        lemma_naming_conflict_ends(geometry, (k - 1) as nat);
        assert(port_of(-7isize) == Err::<Handle, SysError>(SysError::AlreadyExists));
    }
}

/// A server that never answers costs the client the timeout and no more:
/// after each empty look the client sleeps one interval, the time slept
/// never exceeds `HANDSHAKE_TIMEOUT`, and the look after the last sleep
/// ends the handshake with `Timeout`. Both ports are then still listed as
/// open, so that `finish` hands them back to be closed.
pub proof fn lemma_silent_server_times_out(v: HandshakeView, k: nat)
    requires
        v.wf(),
        v.stage == Stage::AwaitingReply,
        v.wait.waited == 0,
        k <= HANDSHAKE_TIMEOUT / 10 + 1,
    ensures
        after_silence(v, k).wf(),
        after_silence(v, k).open_ports() == v.open_ports(),
        v.open_ports().len() == 2,
        k <= HANDSHAKE_TIMEOUT / 10 ==> {
            &&& after_silence(v, k).stage == Stage::AwaitingReply
            &&& after_silence(v, k).wait.waited == 10 * k
        },
        k == HANDSHAKE_TIMEOUT / 10 + 1 ==> {
            &&& after_silence(v, k).stage == Stage::Failed
            &&& after_silence(v, k).error == Some(SysError::Timeout)
            &&& after_silence(v, k).wait.waited == HANDSHAKE_TIMEOUT
        },
    decreases k,
{
    if k > 0 {
        lemma_silent_server_times_out(v, (k - 1) as nat);
    }
}

/// An answer that is shorter than the record it should hold is refused as a
/// protocol error whatever it holds, the right opcode included: nothing is
/// read from it.
pub proof fn lemma_short_answer_refused(v: HandshakeView, reply: isize, frame: Seq<u8>)
    requires
        v.wf(),
        v.stage == Stage::AwaitingReply,
        0 < reply < 24,
    ensures
        v.after(reply, frame).stage == Stage::Failed,
        v.after(reply, frame).error == Some(SysError::ProtocolError),
        v.after(reply, frame).open_ports() == v.open_ports(),
{
}

/// An answer with any opcode but `WINDOW_CREATED` is refused as a protocol
/// error.
pub proof fn lemma_wrong_opcode_refused(v: HandshakeView, reply: isize, frame: Seq<u8>)
    requires
        v.wf(),
        v.stage == Stage::AwaitingReply,
        reply > 0,
        opcode_of(frame) != opcodes::WINDOW_CREATED,
    ensures
        v.after(reply, frame).stage == Stage::Failed,
        v.after(reply, frame).error == Some(SysError::ProtocolError),
{
}

/// No step closes or forgets a port: what was open before is open after,
/// and a failure opens nothing. So whenever a handshake fails, `finish`
/// hands back every port that it ever opened.
pub proof fn lemma_ports_are_kept(v: HandshakeView, reply: isize, frame: Seq<u8>)
    requires
        v.wf(),
    ensures
        v.after(reply, frame).wf(),
        v.open_ports().is_prefix_of(v.after(reply, frame).open_ports()),
        v.after(reply, frame).stage == Stage::Failed ==> v.after(reply, frame).open_ports()
            == v.open_ports(),
        v.after(reply, frame).shm is Some ==> v.after(reply, frame).stage == Stage::Active,
{
}

/// A success is never taken for granted: the session becomes live only by
/// the step that attaches the region, and only after an answer that was
/// whole and carried the opcode `WINDOW_CREATED`.
pub proof fn lemma_active_only_after_answer(v: HandshakeView, reply: isize, frame: Seq<u8>)
    requires
        v.wf(),
        v.stage != Stage::Active,
        v.after(reply, frame).stage == Stage::Active,
    ensures
        v.stage == Stage::AttachingRegion,
        reply >= 0,
{
}

/// Whatever the kernel replies, the creates of a handshake ask for the
/// names of the suffixes 0, 1, 2 and so on, in this order and with the
/// capacity of a reply port; a create that is refused as taken is followed
/// by the next suffix or by the end, and once the handshake has left the
/// binding of its reply port it never creates a port again. As no suffix
/// reaches `REPLY_PORT_ATTEMPTS`, no handshake creates more often than
/// that.
pub proof fn lemma_creates_are_bounded(v: HandshakeView, reply: isize, frame: Seq<u8>)
    requires
        v.wf(),
    ensures
        v.stage == Stage::BindingReplyPort ==> v.seed < REPLY_PORT_ATTEMPTS && v.action() == (
        ActionView::CreatePort { name: reply_port_name(v.seed), capacity: REPLY_PORT_CAPACITY }),
        v.stage == Stage::BindingReplyPort && v.after(reply, frame).stage
            == Stage::BindingReplyPort ==> v.after(reply, frame).seed == v.seed + 1 && port_of(
            reply,
        ) == Err::<Handle, SysError>(SysError::AlreadyExists),
        v.stage != Stage::BindingReplyPort ==> v.after(reply, frame).stage
            != Stage::BindingReplyPort && !(v.action() is CreatePort),
        HandshakeView::start(v.geometry).seed == 0,
{
}

/// The kernel's answer to the creation of a port under `name` while the
/// names in `taken` are in use: `AlreadyExists` for a name that is taken,
/// the handle `fresh` for any other.
pub open spec fn bind_reply(taken: Set<Seq<u8>>, name: Seq<u8>, fresh: isize) -> isize {
    if taken.contains(name) {
        -7isize
    } else {
        fresh
    }
}

/// The state after at most `k` attempts to bind a reply port against such
/// a kernel.
pub open spec fn after_binding(v: HandshakeView, taken: Set<Seq<u8>>, fresh: isize, k: nat) -> HandshakeView
    decreases k,
{
    if k == 0 {
        v
    } else {
        let before = after_binding(v, taken, fresh, (k - 1) as nat);
        if before.stage == Stage::BindingReplyPort {
            before.after(
                bind_reply(taken, reply_port_name(before.seed), fresh),
                Seq::<u8>::empty(),
            )
        } else {
            before
        }
    }
}

/// True when every name with a suffix below `n` is taken.
pub open spec fn all_taken(taken: Set<Seq<u8>>, n: int) -> bool {
    forall|s: u32| s < n ==> taken.contains(#[trigger] reply_port_name(s))
}

/// Against a kernel that refuses exactly the names in use, a client binds
/// its reply port under the first name that is free, and under no name
/// that another live port has: so of any number of clients, each gets a
/// name of its own. Only when the names of all `REPLY_PORT_ATTEMPTS`
/// suffixes are in use does the client give up, with `AlreadyExists`; in
/// no case does it ask more often than that.
pub proof fn lemma_binds_a_free_name(
    geometry: Geometry,
    taken: Set<Seq<u8>>,
    fresh: isize,
    k: nat,
)
    requires
        fresh >= 0,
        k <= REPLY_PORT_ATTEMPTS,
    ensures
        ({
            let now = after_binding(HandshakeView::start(geometry), taken, fresh, k);
            &&& now.wf()
            &&& now.stage == Stage::BindingReplyPort || now.stage == Stage::Connecting || now.stage
                == Stage::Failed
            &&& now.stage == Stage::BindingReplyPort ==> now.seed == k && k < REPLY_PORT_ATTEMPTS
                && all_taken(taken, k as int)
            &&& now.stage == Stage::Connecting ==> !taken.contains(reply_port_name(now.seed))
                && all_taken(taken, now.seed as int) && now.reply_port == Some(
                port_of(fresh)->Ok_0,
            )
            &&& now.stage == Stage::Failed ==> now.error == Some(SysError::AlreadyExists)
                && all_taken(taken, REPLY_PORT_ATTEMPTS as int) && now.open_ports() == Seq::<
                Handle,
            >::empty()
        }),
    decreases k,
{
    let start = HandshakeView::start(geometry);
    if k > 0 {
        lemma_binds_a_free_name(geometry, taken, fresh, (k - 1) as nat);
        let before = after_binding(start, taken, fresh, (k - 1) as nat);
        assert(port_of(-7isize) == Err::<Handle, SysError>(SysError::AlreadyExists));
        assert(port_of(fresh) is Ok);
        if before.stage == Stage::BindingReplyPort {
            let name = reply_port_name(before.seed);
            if taken.contains(name) {
                assert(all_taken(taken, k as int)) by {
                    assert forall|s: u32| s < k implies taken.contains(
                        #[trigger] reply_port_name(s),
                    ) by {
                        if s == before.seed {
                        }
                    }
                }
            }
        }
    }
}

/// How far a handshake is from its end at most, counted in replies: the
/// stages that are left, each taken for as many replies as it may need, the
/// names that are left to try, and the time that is left to wait.
pub open spec fn steps_left(v: HandshakeView) -> int {
    match v.stage {
        Stage::BindingReplyPort => 100_000 + (REPLY_PORT_ATTEMPTS - v.seed),
        Stage::Connecting => 80_000,
        Stage::Sending => 60_000,
        Stage::AwaitingReply => 40_000 + (v.wait.timeout - v.wait.waited),
        Stage::QueryingRegion => 20_000,
        Stage::AttachingRegion => 10_000,
        Stage::Active | Stage::Failed => 0,
    }
}

/// Whatever the kernel replies, every step brings a handshake nearer its
/// end: no sequence of replies keeps it going for ever, so whoever drives it
/// until it is done does not hang.
pub proof fn lemma_handshake_ends(v: HandshakeView, reply: isize, frame: Seq<u8>)
    requires
        v.wf(),
        !v.done(),
    ensures
        v.after(reply, frame).wf(),
        0 <= steps_left(v.after(reply, frame)) < steps_left(v),
{
}

} // verus!
