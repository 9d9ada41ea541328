//! The client side of a window session.
//!
//! A session is set up by a handshake: the client binds a reply port under
//! a name that is free, connects to the compositor, sends a create request
//! that carries the name, waits a bounded time for the answer on the reply
//! port, and opens the shared region that the answer names. Each of these
//! needs the kernel, so the handshake is a state machine: `next` says what
//! to ask the kernel for, `step` takes the kernel's reply and moves on.
//! Nothing is retried but the name, and whatever fails, the ports that were
//! opened so far are handed back to be closed.

use vstd::prelude::*;
use vstd::string::StringSliceAdditionalSpecFns;

use crate::encoding::{i32_bits, i32_to_bits, le_u32, le_u64, u32_le};
use crate::event::{is_event_of, Event};
use crate::graphics::geometry::{Rect, Size};
use crate::io::Handle;
use crate::ipc::shm::{attached, SharedMemory, SharedMemoryView, ShmId};
use crate::ipc::{port_of, recv_step, recv_wait_after, Port, RecvStep, RecvWait};
use crate::syscall::error::{check_error, reply_of, SysError, SysResult};
use crate::text::{fixed_field, padded};
use crate::window::naming::{
    format_reply_port_name, reply_port_name, REPLY_PORT_CAPACITY, REPLY_PORT_ATTEMPTS,
};
use crate::window::opcodes;
use crate::window::laws::lemma_commit_round_trip;
use crate::window::protocol::{
    opcode_of, CommitBufferRequest, CreateWindowRequest, DestroyWindowRequest,
    MoveWindowRequest, ResizeWindowRequest, SetWindowFlagsRequest, WindowCreatedResponse,
    WindowOpRequest, COMPOSITOR_PORT, MAX_MSG_SIZE,
};

verus! {

/// Longest time that a client waits for the answer to its create request.
pub const HANDSHAKE_TIMEOUT: u64 = 10000;

/// Where a handshake stands. Each stage but the last two waits for the
/// kernel's reply to one request.
#[derive(Debug, Clone, Copy, PartialEq, Eq, Structural)]
pub enum Stage {
    /// Nothing is open; a reply port is being created under the next name.
    BindingReplyPort,
    /// The reply port is bound; the connection to the compositor is being
    /// made.
    Connecting,
    /// Both ports are open; the create request is being sent.
    Sending,
    /// The request is sent; the answer is awaited on the reply port.
    AwaitingReply,
    /// The answer named a region; its size is being asked for.
    QueryingRegion,
    /// The region's size is known; it is being attached.
    AttachingRegion,
    /// The session is live.
    Active,
    /// The handshake failed.
    Failed,
}

/// The phases of a session as its protocol names them.
#[derive(Debug, Clone, Copy, PartialEq, Eq, Structural)]
pub enum Phase {
    Unconnected,
    ReplyPortBound,
    HandshakeSent,
    Active,
    Destroyed,
}

/// What a client asks for: where the window is to stand, how large it is,
/// its flags and its title.
#[derive(Debug, Clone, Copy, PartialEq, Eq)]
pub struct Geometry {
    pub x: u32,
    pub y: u32,
    pub width: u32,
    pub height: u32,
    pub flags: u32,
    /// The title, cut to 64 bytes and padded with zeros.
    pub title: [u8; 64],
}

/// A handshake in progress.
#[derive(Debug)]
pub struct Handshake {
    stage: Stage,
    geometry: Geometry,
    seed: u32,
    reply_port: Option<Port>,
    control_port: Option<Port>,
    wait: RecvWait,
    nap: u64,
    window_id: u32,
    region: ShmId,
    region_size: usize,
    shm: Option<SharedMemory>,
    error: Option<SysError>,
}

/// A handshake as plain values.
pub struct HandshakeView {
    pub stage: Stage,
    pub geometry: Geometry,
    /// Suffix of the reply port name that is being tried, or was accepted.
    pub seed: u32,
    /// The reply port, once bound.
    pub reply_port: Option<Handle>,
    /// The connection to the compositor, once made.
    pub control_port: Option<Handle>,
    /// How long the answer has been awaited.
    pub wait: RecvWait,
    /// Time to sleep before the next look at the reply port.
    pub nap: u64,
    /// Identifier that the server gave the window.
    pub window_id: u32,
    /// The region that the server named.
    pub region: ShmId,
    /// Size of that region.
    pub region_size: usize,
    /// The region, once attached.
    pub shm: Option<SharedMemoryView>,
    /// Why the handshake failed.
    pub error: Option<SysError>,
}

/// A message to send: the port to send it on, its bytes, and the flags of
/// the send.
#[derive(Debug, PartialEq, Eq)]
pub struct Outgoing {
    pub port: Handle,
    pub frame: Vec<u8>,
    pub flags: u32,
}

/// A message to send, as plain values.
pub struct OutgoingView {
    pub port: Handle,
    pub frame: Seq<u8>,
    pub flags: u32,
}

impl View for Outgoing {
    type V = OutgoingView;

    open spec fn view(&self) -> OutgoingView {
        OutgoingView { port: self.port, frame: self.frame@, flags: self.flags }
    }
}

/// A look at a port: a receive of at most `capacity` bytes that waits at
/// most `timeout`; with a timeout of 0 it does not block.
#[derive(Debug, Clone, Copy, PartialEq, Eq, Structural)]
pub struct Look {
    pub port: Handle,
    pub capacity: usize,
    pub timeout: u64,
}

/// The next request to the kernel.
#[derive(Debug, PartialEq, Eq)]
#[allow(inconsistent_fields)]
pub enum Action {
    /// Create a port of `capacity` messages under `name`; reply with the
    /// kernel's answer.
    CreatePort { name: Vec<u8>, capacity: usize },
    /// Connect to the port under `name`, which is the compositor's; reply
    /// with the kernel's answer.
    Connect { name: &'static str },
    /// Send the message, which goes to the control port; reply with the
    /// kernel's answer.
    Send(Outgoing),
    /// Sleep for `nap` (not at all when it is 0), then take the look, which
    /// is at the reply port; reply with the kernel's answer and the bytes
    /// received.
    Receive { look: Look, nap: u64 },
    /// Ask for the size of the region `id`; reply with the kernel's answer.
    QueryRegion { id: ShmId },
    /// Attach `size` bytes of the region `id`; reply with the kernel's
    /// answer.
    AttachRegion { id: ShmId, size: usize },
    /// Nothing is left to ask: call `finish`.
    Finish,
}

/// A request as plain values.
pub enum ActionView {
    CreatePort { name: Seq<u8>, capacity: usize },
    Connect { name: Seq<u8> },
    Send(OutgoingView),
    Receive { look: Look, nap: u64 },
    QueryRegion { id: ShmId },
    AttachRegion { id: ShmId, size: usize },
    Finish,
}

impl View for Action {
    type V = ActionView;

    open spec fn view(&self) -> ActionView {
        match *self {
            Action::CreatePort { name, capacity } => ActionView::CreatePort {
                name: name@,
                capacity,
            },
            Action::Connect { name } => ActionView::Connect { name: name.spec_bytes() },
            Action::Send(message) => ActionView::Send(message@),
            Action::Receive { look, nap } => ActionView::Receive { look, nap },
            Action::QueryRegion { id } => ActionView::QueryRegion { id },
            Action::AttachRegion { id, size } => ActionView::AttachRegion { id, size },
            Action::Finish => ActionView::Finish,
        }
    }
}

/// A live window session.
#[derive(Debug)]
pub struct Window {
    /// Identifier that the server gave the window.
    pub id: u32,
    /// The shared region that holds the pixels.
    pub shm: SharedMemory,
    width: u32,
    height: u32,
    compositor_port: Port,
    event_port: Port,
}

/// A window as plain values.
pub struct WindowView {
    pub id: u32,
    pub shm: SharedMemoryView,
    pub width: u32,
    pub height: u32,
    /// The connection to the compositor, on which requests are sent.
    pub compositor_port: Handle,
    /// The port on which the answer came and events arrive.
    pub event_port: Handle,
}

impl View for Window {
    type V = WindowView;

    closed spec fn view(&self) -> WindowView {
        WindowView {
            id: self.id,
            shm: self.shm@,
            width: self.width,
            height: self.height,
            compositor_port: self.compositor_port@,
            event_port: self.event_port@,
        }
    }
}

impl WindowView {
    /// The message that carries `frame` to the compositor: it goes on the
    /// control port, without flags.
    pub open spec fn to_compositor(self, frame: Seq<u8>) -> OutgoingView {
        OutgoingView { port: self.compositor_port, frame, flags: 0 }
    }

    /// The look that takes one event: at the event port, with room for the
    /// largest frame, and without blocking.
    pub open spec fn event_look(self) -> Look {
        Look { port: self.event_port, capacity: MAX_MSG_SIZE, timeout: 0 }
    }
}

/// How a handshake ended.
#[derive(Debug)]
pub enum Outcome {
    /// The session is live.
    Ready(Window),
    /// The handshake failed, or was given up before its end. The ports in
    /// `release` are all that it had opened; the caller closes them.
    Aborted { error: SysError, release: Vec<Port> },
}

/// The handle that is there, or the invalid handle.
pub open spec fn handle_or_invalid(h: Option<Handle>) -> Handle {
    match h {
        Some(h) => h,
        None => Handle(crate::io::INVALID_RAW),
    }
}

fn raw_of(p: &Option<Port>) -> (h: Handle)
    ensures
        h == handle_or_invalid(port_view(*p)),
{
    match p {
        Some(p) => *p.handle(),
        None => Handle::invalid(),
    }
}

/// The handle of a port that may be there.
pub open spec fn port_view(p: Option<Port>) -> Option<Handle> {
    match p {
        Some(p) => Some(p@),
        None => None,
    }
}

/// The mapping of a region that may be there.
pub open spec fn shm_view(s: Option<SharedMemory>) -> Option<SharedMemoryView> {
    match s {
        Some(s) => Some(s@),
        None => None,
    }
}

impl View for Handshake {
    type V = HandshakeView;

    closed spec fn view(&self) -> HandshakeView {
        HandshakeView {
            stage: self.stage,
            geometry: self.geometry,
            seed: self.seed,
            reply_port: port_view(self.reply_port),
            control_port: port_view(self.control_port),
            wait: self.wait,
            nap: self.nap,
            window_id: self.window_id,
            region: self.region,
            region_size: self.region_size,
            shm: shm_view(self.shm),
            error: self.error,
        }
    }
}

/// The create request that a handshake sends: its geometry, and the name of
/// its reply port in a field of 32 bytes.
pub open spec fn create_frame(v: HandshakeView) -> Seq<u8> {
    u32_le(opcodes::CREATE_WINDOW) + u32_le(v.geometry.x) + u32_le(v.geometry.y) + u32_le(
        v.geometry.width,
    ) + u32_le(v.geometry.height) + u32_le(v.geometry.flags) + padded(
        reply_port_name(v.seed),
        32,
    ) + v.geometry.title@
}

impl HandshakeView {
    /// The state in which a handshake starts.
    pub open spec fn start(geometry: Geometry) -> HandshakeView {
        HandshakeView {
            stage: Stage::BindingReplyPort,
            geometry,
            seed: 0,
            reply_port: None,
            control_port: None,
            wait: RecvWait { timeout: HANDSHAKE_TIMEOUT, waited: 0 },
            nap: 0,
            window_id: 0,
            region: ShmId(0),
            region_size: 0,
            shm: None,
            error: None,
        }
    }

    /// What holds of every state that a handshake reaches: the ports that a
    /// stage needs are open, the suffix is one of those that may be tried,
    /// and no more time was slept than the timeout allows.
    pub open spec fn wf(self) -> bool {
        &&& self.seed < REPLY_PORT_ATTEMPTS
        &&& self.wait.timeout == HANDSHAKE_TIMEOUT
        &&& self.wait.wf()
        &&& match self.stage {
            Stage::BindingReplyPort => self.reply_port is None && self.control_port is None,
            Stage::Connecting => self.reply_port is Some && self.control_port is None,
            Stage::Sending | Stage::AwaitingReply | Stage::QueryingRegion
            | Stage::AttachingRegion => self.reply_port is Some && self.control_port is Some,
            Stage::Active => self.reply_port is Some && self.control_port is Some
                && self.shm is Some,
            Stage::Failed => self.error is Some,
        }
        &&& self.stage != Stage::Active ==> self.shm is None
    }

    /// The phase of the session that a stage belongs to.
    pub open spec fn phase(self) -> Phase {
        match self.stage {
            Stage::BindingReplyPort => Phase::Unconnected,
            Stage::Connecting | Stage::Sending => Phase::ReplyPortBound,
            Stage::AwaitingReply | Stage::QueryingRegion | Stage::AttachingRegion =>
                Phase::HandshakeSent,
            Stage::Active => Phase::Active,
            Stage::Failed => Phase::Destroyed,
        }
    }

    /// The state after a failure: the error is kept, and so are the ports,
    /// for `finish` to hand back.
    pub open spec fn failed(self, e: SysError) -> HandshakeView {
        HandshakeView { stage: Stage::Failed, error: Some(e), ..self }
    }

    /// True when the handshake needs nothing more from the kernel.
    pub open spec fn done(self) -> bool {
        self.stage == Stage::Active || self.stage == Stage::Failed
    }

    /// The request that the state asks for.
    pub open spec fn action(self) -> ActionView {
        match self.stage {
            Stage::BindingReplyPort => ActionView::CreatePort {
                name: reply_port_name(self.seed),
                capacity: REPLY_PORT_CAPACITY,
            },
            Stage::Connecting => ActionView::Connect { name: COMPOSITOR_PORT.spec_bytes() },
            Stage::Sending => ActionView::Send(
                OutgoingView {
                    port: handle_or_invalid(self.control_port),
                    frame: create_frame(self),
                    flags: 0,
                },
            ),
            Stage::AwaitingReply => ActionView::Receive {
                look: Look {
                    port: handle_or_invalid(self.reply_port),
                    capacity: MAX_MSG_SIZE,
                    timeout: 0,
                },
                nap: self.nap,
            },
            Stage::QueryingRegion => ActionView::QueryRegion { id: self.region },
            Stage::AttachingRegion => ActionView::AttachRegion {
                id: self.region,
                size: self.region_size,
            },
            Stage::Active | Stage::Failed => ActionView::Finish,
        }
    }

    /// The state after the kernel answered the create of the reply port. A
    /// name that is taken is tried again with the next suffix, as long as
    /// fewer than `REPLY_PORT_ATTEMPTS` attempts were made; the refusal of
    /// the last attempt, like any other error, ends the handshake.
    pub open spec fn after_bind(self, reply: isize) -> HandshakeView {
        match port_of(reply) {
            Ok(h) => HandshakeView { stage: Stage::Connecting, reply_port: Some(h), ..self },
            Err(e) => if e == SysError::AlreadyExists && self.seed + 1 < REPLY_PORT_ATTEMPTS {
                HandshakeView { seed: (self.seed + 1) as u32, ..self }
            } else {
                self.failed(e)
            },
        }
    }

    /// The state after the kernel answered the connect.
    pub open spec fn after_connect(self, reply: isize) -> HandshakeView {
        match port_of(reply) {
            Ok(h) => HandshakeView { stage: Stage::Sending, control_port: Some(h), ..self },
            Err(e) => self.failed(e),
        }
    }

    /// The state after the kernel answered the send.
    pub open spec fn after_send(self, reply: isize) -> HandshakeView {
        match reply_of(reply) {
            Ok(_) => HandshakeView { stage: Stage::AwaitingReply, nap: 0, ..self },
            Err(e) => self.failed(e),
        }
    }

    /// The state after one look at the reply port. An empty port asks for
    /// another look after a sleep, until the timeout is used up: then the
    /// handshake fails with `Timeout`. A frame is accepted only if it is
    /// whole, at least as long as the answer and carries its opcode;
    /// anything else is a `ProtocolError`.
    pub open spec fn after_receive(self, reply: isize, frame: Seq<u8>) -> HandshakeView {
        match recv_step(self.wait, reply) {
            RecvStep::Sleep(ms) => HandshakeView {
                wait: recv_wait_after(self.wait, reply),
                nap: ms,
                ..self
            },
            RecvStep::Done(Err(e)) => self.failed(e),
            RecvStep::Done(Ok(n)) => if n == 0 {
                self.failed(SysError::Timeout)
            } else if n > frame.len() || n < 24 || opcode_of(frame) != opcodes::WINDOW_CREATED {
                self.failed(SysError::ProtocolError)
            } else {
                HandshakeView {
                    stage: Stage::QueryingRegion,
                    window_id: le_u32(frame, 4) as u32,
                    region: ShmId(le_u64(frame, 8) as u64),
                    ..self
                }
            },
        }
    }

    /// The state after the kernel answered the query for the region's size.
    pub open spec fn after_query(self, reply: isize) -> HandshakeView {
        match reply_of(reply) {
            Ok(size) => HandshakeView {
                stage: Stage::AttachingRegion,
                region_size: size,
                ..self
            },
            Err(e) => self.failed(e),
        }
    }

    /// The state after the kernel answered the attachment.
    pub open spec fn after_attach(self, reply: isize) -> HandshakeView {
        match attached(self.region, self.region_size, reply) {
            Ok(shm) => HandshakeView { stage: Stage::Active, shm: Some(shm), ..self },
            Err(e) => self.failed(e),
        }
    }

    /// The state after the kernel's reply to the request of this state.
    /// `frame` is read only where the request was to receive.
    pub open spec fn after(self, reply: isize, frame: Seq<u8>) -> HandshakeView {
        match self.stage {
            Stage::BindingReplyPort => self.after_bind(reply),
            Stage::Connecting => self.after_connect(reply),
            Stage::Sending => self.after_send(reply),
            Stage::AwaitingReply => self.after_receive(reply, frame),
            Stage::QueryingRegion => self.after_query(reply),
            Stage::AttachingRegion => self.after_attach(reply),
            Stage::Active | Stage::Failed => self,
        }
    }

    /// The ports that are open in this state: the reply port first.
    pub open spec fn open_ports(self) -> Seq<Handle> {
        let first = match self.reply_port {
            Some(h) => seq![h],
            None => Seq::<Handle>::empty(),
        };
        match self.control_port {
            Some(h) => first.push(h),
            None => first,
        }
    }
}

/// The commit request of the window `id` for the rectangle `dirty`.
/// Coordinates travel as unsigned numbers with the same bits.
pub open spec fn commit_request(id: u32, dirty: Rect) -> CommitBufferRequest {
    CommitBufferRequest {
        op: opcodes::COMMIT_BUFFER,
        window_id: id,
        x: i32_bits(dirty.x),
        y: i32_bits(dirty.y),
        width: dirty.width,
        height: dirty.height,
    }
}

/// True when `r` is what one pull of the event stream gives: nothing when
/// the look at the port failed or found it empty, a protocol error when
/// more bytes are claimed than were handed over, else the event that the
/// bytes received decode to.
pub open spec fn is_pulled(r: Option<SysResult<Event>>, reply: isize, frame: Seq<u8>) -> bool {
    match reply_of(reply) {
        Err(_) => r is None,
        Ok(n) => if n == 0 {
            r is None
        } else if n > frame.len() {
            r == Some(Err::<Event, SysError>(SysError::ProtocolError))
        } else {
            r is Some && is_event_of(r->Some_0, frame.subrange(0, n as int))
        },
    }
}

/// Polling with nothing queued gives an empty stream at once: the first
/// pull ends it, whatever the buffer holds, and the look that it rests on
/// is one that does not block.
pub proof fn lemma_empty_poll_ends(r: Option<SysResult<Event>>, frame: Seq<u8>)
    requires
        is_pulled(r, 0, frame),
    ensures
        r is None,
{
}

/// The handles of a list of ports.
pub open spec fn handles_of(ports: Seq<Port>) -> Seq<Handle> {
    ports.map_values(|p: Port| p@)
}

impl Geometry {
    /// The geometry of a request. The title is cut to 64 bytes.
    pub fn new(x: u32, y: u32, width: u32, height: u32, flags: u32, title: &str) -> (g: Geometry)
        ensures
            g.x == x,
            g.y == y,
            g.width == width,
            g.height == height,
            g.flags == flags,
            g.title@ == padded(title.spec_bytes(), 64),
    {
        Geometry { x, y, width, height, flags, title: fixed_field::<64>(title.as_bytes()) }
    }
}

impl Handshake {
    fn start(geometry: Geometry) -> (h: Handshake)
        ensures
            h@ == HandshakeView::start(geometry),
            h@.wf(),
    {
        Handshake {
            stage: Stage::BindingReplyPort,
            geometry,
            seed: 0,
            reply_port: None,
            control_port: None,
            wait: RecvWait::new(HANDSHAKE_TIMEOUT),
            nap: 0,
            window_id: 0,
            region: ShmId(0),
            region_size: 0,
            shm: None,
            error: None,
        }
    }

    /// The stage of the handshake.
    pub fn stage(&self) -> (s: Stage)
        ensures
            s == self@.stage,
    {
        self.stage
    }

    /// The phase of the session that the handshake is in. A handshake that
    /// failed is at its end, like a session that was destroyed.
    pub fn phase(&self) -> (p: Phase)
        ensures
            p == self@.phase(),
    {
        match self.stage {
            Stage::BindingReplyPort => Phase::Unconnected,
            Stage::Connecting => Phase::ReplyPortBound,
            Stage::Sending => Phase::ReplyPortBound,
            Stage::AwaitingReply => Phase::HandshakeSent,
            Stage::QueryingRegion => Phase::HandshakeSent,
            Stage::AttachingRegion => Phase::HandshakeSent,
            Stage::Active => Phase::Active,
            Stage::Failed => Phase::Destroyed,
        }
    }

    /// True when nothing more is to be asked of the kernel.
    pub fn is_done(&self) -> (b: bool)
        ensures
            b == self@.done(),
    {
        match self.stage {
            Stage::Active | Stage::Failed => true,
            _ => false,
        }
    }

    /// The request to make next.
    pub fn next(&self) -> (a: Action)
        ensures
            a@ == self@.action(),
    {
        match self.stage {
            Stage::BindingReplyPort => Action::CreatePort {
                name: format_reply_port_name(self.seed),
                capacity: REPLY_PORT_CAPACITY,
            },
            Stage::Connecting => Action::Connect { name: COMPOSITOR_PORT },
            Stage::Sending => {
                let name: Vec<u8> = format_reply_port_name(self.seed);
                let request = CreateWindowRequest {
                    op: opcodes::CREATE_WINDOW,
                    x: self.geometry.x,
                    y: self.geometry.y,
                    width: self.geometry.width,
                    height: self.geometry.height,
                    flags: self.geometry.flags,
                    reply_port: fixed_field::<32>(name.as_slice()),
                    title: self.geometry.title,
                };
                let frame: Vec<u8> = request.encode();
                assert(frame@ =~= create_frame(self@));
                Action::Send(Outgoing { port: raw_of(&self.control_port), frame, flags: 0 })
            },
            Stage::AwaitingReply => Action::Receive {
                look: Look {
                    port: raw_of(&self.reply_port),
                    capacity: MAX_MSG_SIZE,
                    timeout: 0,
                },
                nap: self.nap,
            },
            Stage::QueryingRegion => Action::QueryRegion { id: self.region },
            Stage::AttachingRegion => Action::AttachRegion {
                id: self.region,
                size: self.region_size,
            },
            Stage::Active => Action::Finish,
            Stage::Failed => Action::Finish,
        }
    }

    fn fail(&mut self, e: SysError)
        ensures
            final(self)@ == old(self)@.failed(e),
    {
        self.stage = Stage::Failed;
        self.error = Some(e);
    }

    /// Takes the kernel's reply to the request that `next` named, and moves
    /// to the next state. `frame` holds the bytes received; it is read only
    /// after a receive.
    pub fn step(&mut self, reply: isize, frame: &[u8])
        requires
            old(self)@.wf(),
        ensures
            final(self)@ == old(self)@.after(reply, frame@),
            final(self)@.wf(),
    {
        match self.stage {
            Stage::BindingReplyPort => {
                match Port::create(reply) {
                    Ok(port) => {
                        self.reply_port = Some(port);
                        self.stage = Stage::Connecting;
                    },
                    Err(e) => {
                        let taken: bool = match e {
                            SysError::AlreadyExists => true,
                            _ => false,
                        };
                        if taken && self.seed < REPLY_PORT_ATTEMPTS - 1 {
                            self.seed = self.seed + 1;
                        } else {
                            self.fail(e);
                        }
                    },
                }
            },
            Stage::Connecting => {
                match Port::connect(reply) {
                    Ok(port) => {
                        self.control_port = Some(port);
                        self.stage = Stage::Sending;
                    },
                    Err(e) => {
                        self.fail(e);
                    },
                }
            },
            Stage::Sending => {
                match check_error(reply) {
                    Ok(_) => {
                        self.nap = 0;
                        self.stage = Stage::AwaitingReply;
                    },
                    Err(e) => {
                        self.fail(e);
                    },
                }
            },
            Stage::AwaitingReply => {
                let mut wait: RecvWait = self.wait;
                let looked: RecvStep = match &self.reply_port {
                    Some(port) => port.recv(&mut wait, reply),
                    None => RecvStep::Done(Err(SysError::InvalidHandle)),
                };
                match looked {
                    RecvStep::Sleep(ms) => {
                        self.wait = wait;
                        self.nap = ms;
                    },
                    RecvStep::Done(Err(e)) => {
                        self.fail(e);
                    },
                    RecvStep::Done(Ok(n)) => {
                        if n == 0 {
                            self.fail(SysError::Timeout);
                        } else if n > frame.len() {
                            self.fail(SysError::ProtocolError);
                        } else {
                            match WindowCreatedResponse::decode(frame) {
                                Ok(answer) => {
                                    if n < 24 {
                                        self.fail(SysError::ProtocolError);
                                    } else {
                                        self.window_id = answer.window_id;
                                        self.region = ShmId(answer.shm_handle);
                                        self.stage = Stage::QueryingRegion;
                                    }
                                },
                                Err(_) => {
                                    self.fail(SysError::ProtocolError);
                                },
                            }
                        }
                    },
                }
            },
            Stage::QueryingRegion => {
                match check_error(reply) {
                    Ok(size) => {
                        self.region_size = size;
                        self.stage = Stage::AttachingRegion;
                    },
                    Err(e) => {
                        self.fail(e);
                    },
                }
            },
            Stage::AttachingRegion => {
                match SharedMemory::attach(self.region, self.region_size, reply) {
                    Ok(shm) => {
                        self.shm = Some(shm);
                        self.stage = Stage::Active;
                    },
                    Err(e) => {
                        self.fail(e);
                    },
                }
            },
            Stage::Active => {},
            Stage::Failed => {},
        }
    }
}

impl Handshake {
    /// Ends the handshake. A live session is handed over as a window that
    /// owns both ports and the region. In every other case the caller gets
    /// the error and every port that was opened, to close them: the error
    /// of the failure, or `Interrupted` where the handshake is given up
    /// before its end.
    pub fn finish(self) -> (out: Outcome)
        requires
            self@.wf(),
        ensures
            self@.stage == Stage::Active ==> (out matches Outcome::Ready(w) && w@ == (WindowView {
                id: self@.window_id,
                shm: self@.shm->Some_0,
                width: self@.geometry.width,
                height: self@.geometry.height,
                compositor_port: self@.control_port->Some_0,
                event_port: self@.reply_port->Some_0,
            })),
            self@.stage != Stage::Active ==> (out matches Outcome::Aborted { error, release }
                && handles_of(release@) == self@.open_ports() && error == (if self@.stage
                == Stage::Failed {
                self@.error->Some_0
            } else {
                SysError::Interrupted
            })),
    {
        let ghost v = self@;
        let Handshake {
            stage,
            geometry,
            seed: _,
            reply_port,
            control_port,
            wait: _,
            nap: _,
            window_id,
            region: _,
            region_size: _,
            shm,
            error,
        } = self;
        let (reply_port, control_port) = match (stage, reply_port, control_port, shm) {
            (Stage::Active, Some(event_port), Some(compositor_port), Some(shm)) => {
                return Outcome::Ready(
                    Window {
                        id: window_id,
                        shm,
                        width: geometry.width,
                        height: geometry.height,
                        compositor_port,
                        event_port,
                    },
                );
            },
            (_, reply_port, control_port, _) => (reply_port, control_port),
        };
        let mut release: Vec<Port> = Vec::new();
        match reply_port {
            Some(p) => {
                release.push(p);
            },
            None => {},
        }
        match control_port {
            Some(p) => {
                release.push(p);
            },
            None => {},
        }
        assert(handles_of(release@) =~= v.open_ports());
        let error: SysError = match (stage, error) {
            (Stage::Failed, Some(e)) => e,
            _ => SysError::Interrupted,
        };
        Outcome::Aborted { error, release }
    }
}

impl Window {
    /// Starts the handshake for a window without flags.
    pub fn create(x: u32, y: u32, width: u32, height: u32, title: &str) -> (h: Handshake)
        ensures
            h@.wf(),
            h@ == HandshakeView::start(h@.geometry),
            h@.geometry.x == x,
            h@.geometry.y == y,
            h@.geometry.width == width,
            h@.geometry.height == height,
            h@.geometry.flags == 0,
            h@.geometry.title@ == padded(title.spec_bytes(), 64),
    {
        Handshake::start(Geometry::new(x, y, width, height, 0, title))
    }

    /// Starts the handshake for a window with the given flags.
    pub fn create_with_flags(
        x: u32,
        y: u32,
        width: u32,
        height: u32,
        flags: u32,
        title: &str,
    ) -> (h: Handshake)
        ensures
            h@.wf(),
            h@ == HandshakeView::start(h@.geometry),
            h@.geometry.x == x,
            h@.geometry.y == y,
            h@.geometry.width == width,
            h@.geometry.height == height,
            h@.geometry.flags == flags,
            h@.geometry.title@ == padded(title.spec_bytes(), 64),
    {
        Handshake::start(Geometry::new(x, y, width, height, flags, title))
    }

    /// Identifier that the server gave the window.
    pub fn id(&self) -> (id: u32)
        ensures
            id == self@.id,
    {
        self.id
    }

    /// The shared region that holds the pixels.
    pub fn shm(&self) -> (s: &SharedMemory)
        ensures
            s@ == self@.shm,
    {
        &self.shm
    }

    /// Width in pixels.
    pub fn width(&self) -> (w: u32)
        ensures
            w == self@.width,
    {
        self.width
    }

    /// Height in pixels.
    pub fn height(&self) -> (h: u32)
        ensures
            h == self@.height,
    {
        self.height
    }

    /// Width and height in pixels.
    pub fn size(&self) -> (s: Size)
        ensures
            s == (Size { width: self@.width, height: self@.height }),
    {
        Size::new(self.width, self.height)
    }

    /// The rectangle of the window, with its origin at `(0, 0)`.
    pub fn bounds(&self) -> (r: Rect)
        ensures
            r == (Rect { x: 0, y: 0, width: self@.width, height: self@.height }),
    {
        Rect::new(0, 0, self.width, self.height)
    }

    fn outgoing(&self, frame: Vec<u8>) -> (out: Outgoing)
        ensures
            out@ == self@.to_compositor(frame@),
    {
        Outgoing { port: *self.compositor_port.handle(), frame, flags: 0 }
    }

    /// The look at the event port that one pull of the event stream rests
    /// on: it does not block.
    pub fn events(&self) -> (look: Look)
        ensures
            look == self@.event_look(),
    {
        Look { port: *self.event_port.handle(), capacity: MAX_MSG_SIZE, timeout: 0 }
    }

    /// The commit request for the whole surface, to send on the control
    /// port. No answer follows a commit.
    pub fn present(&self) -> (out: Outgoing)
        ensures
            out@ == self@.to_compositor(
                commit_request(
                    self@.id,
                    Rect { x: 0, y: 0, width: self@.width, height: self@.height },
                ).wire(),
            ),
            CommitBufferRequest::fields_of(out@.frame) == commit_request(
                self@.id,
                Rect { x: 0, y: 0, width: self@.width, height: self@.height },
            ),
    {
        self.present_region(self.bounds())
    }

    /// The commit request for the rectangle `dirty`, to send on the control
    /// port. A recipient that decodes the frame as a commit request reads
    /// the window's identifier and the rectangle as given.
    pub fn present_region(&self, dirty: Rect) -> (out: Outgoing)
        ensures
            out@ == self@.to_compositor(commit_request(self@.id, dirty).wire()),
            out@.frame.len() == 24,
            opcode_of(out@.frame) == opcodes::COMMIT_BUFFER,
            CommitBufferRequest::fields_of(out@.frame) == commit_request(self@.id, dirty),
    {
        let request = CommitBufferRequest {
            op: opcodes::COMMIT_BUFFER,
            window_id: self.id,
            x: i32_to_bits(dirty.x),
            y: i32_to_bits(dirty.y),
            width: dirty.width,
            height: dirty.height,
        };
        proof {
            lemma_commit_round_trip(request);
        }
        self.outgoing(request.encode())
    }

    /// The request to destroy the window, to send on the control port.
    /// Nothing keeps a caller from sending it twice; telling the two apart
    /// is the server's part.
    pub fn destroy(&self) -> (out: Outgoing)
        ensures
            out@ == self@.to_compositor(
                (DestroyWindowRequest { op: opcodes::DESTROY_WINDOW, window_id: self@.id }).wire(),
            ),
    {
        self.outgoing(
            (DestroyWindowRequest { op: opcodes::DESTROY_WINDOW, window_id: self.id }).encode(),
        )
    }

    /// The request to minimize the window.
    pub fn minimize(&self) -> (out: Outgoing)
        ensures
            out@ == self@.to_compositor(
                (WindowOpRequest { op: opcodes::MINIMIZE_WINDOW, window_id: self@.id }).wire(),
            ),
    {
        self.op_request(opcodes::MINIMIZE_WINDOW)
    }

    /// The request to restore the window.
    pub fn restore(&self) -> (out: Outgoing)
        ensures
            out@ == self@.to_compositor(
                (WindowOpRequest { op: opcodes::RESTORE_WINDOW, window_id: self@.id }).wire(),
            ),
    {
        self.op_request(opcodes::RESTORE_WINDOW)
    }

    fn op_request(&self, op: u32) -> (out: Outgoing)
        ensures
            out@ == self@.to_compositor((WindowOpRequest { op, window_id: self@.id }).wire()),
    {
        self.outgoing((WindowOpRequest { op, window_id: self.id }).encode())
    }

    /// The request to move the window to `(x, y)`.
    pub fn move_to(&self, x: i32, y: i32) -> (out: Outgoing)
        ensures
            out@ == self@.to_compositor(
                (MoveWindowRequest {
                    op: opcodes::MOVE_WINDOW,
                    window_id: self@.id,
                    x,
                    y,
                }).wire(),
            ),
    {
        self.outgoing(
            (MoveWindowRequest { op: opcodes::MOVE_WINDOW, window_id: self.id, x, y }).encode(),
        )
    }

    /// The request to resize the window.
    pub fn resize(&self, width: u32, height: u32) -> (out: Outgoing)
        ensures
            out@ == self@.to_compositor(
                (ResizeWindowRequest {
                    op: opcodes::RESIZE_WINDOW,
                    window_id: self@.id,
                    width,
                    height,
                }).wire(),
            ),
    {
        self.outgoing(
            (ResizeWindowRequest {
                op: opcodes::RESIZE_WINDOW,
                window_id: self.id,
                width,
                height,
            }).encode(),
        )
    }

    /// The request to replace the flags of the window.
    pub fn set_flags(&self, flags: u32) -> (out: Outgoing)
        ensures
            out@ == self@.to_compositor(
                (SetWindowFlagsRequest {
                    op: opcodes::SET_WINDOW_FLAGS,
                    window_id: self@.id,
                    flags,
                }).wire(),
            ),
    {
        self.outgoing(
            (SetWindowFlagsRequest {
                op: opcodes::SET_WINDOW_FLAGS,
                window_id: self.id,
                flags,
            }).encode(),
        )
    }

    /// What a request came to, from the kernel's reply to its send: nothing
    /// on success, the kernel's error unchanged otherwise. No request is
    /// sent again by this layer.
    pub fn sent(reply: isize) -> (r: SysResult<()>)
        ensures
            r is Ok <==> reply >= 0,
            r is Err ==> r->Err_0 == crate::syscall::error::error_of(reply),
    {
        match check_error(reply) {
            Ok(_) => Ok(()),
            Err(e) => Err(e),
        }
    }

    /// One pull of the event stream. `reply` answers the look that
    /// `events` names, `frame` holds the bytes received. The
    /// stream ends (`None`) when the port was empty or the look failed;
    /// else the frame is decoded by its opcode into one event.
    pub fn poll_events(&self, reply: isize, frame: &[u8]) -> (r: Option<SysResult<Event>>)
        ensures
            is_pulled(r, reply, frame@),
    {
        match check_error(reply) {
            Err(_) => None,
            Ok(n) => {
                if n == 0 {
                    None
                } else if n > frame.len() {
                    Some(Err(SysError::ProtocolError))
                } else {
                    Some(Event::decode(vstd::slice::slice_subrange(frame, 0, n)))
                }
            },
        }
    }

    /// The connection to the compositor, on which requests are sent.
    pub fn compositor_port(&self) -> (p: &Port)
        ensures
            p@ == self@.compositor_port,
    {
        &self.compositor_port
    }

    /// The port on which events arrive.
    pub fn event_port(&self) -> (p: &Port)
        ensures
            p@ == self@.event_port,
    {
        &self.event_port
    }
}

} // verus!
