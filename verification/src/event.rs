//! Readiness polling records and the events that a window receives.

use vstd::prelude::*;

use crate::encoding::{le_u32, push_u32, read_u32, u32_le};
use crate::io::Handle;
use crate::syscall::error::{SysError, SysResult};
use crate::window::opcodes;
use crate::window::protocol::WindowLifecycleEvent;

pub mod event_type;
pub mod events;

verus! {

/// One entry of a poll request: the handle, the events asked for, and the
/// events that the kernel reported.
#[derive(Debug, Clone, Copy, PartialEq, Eq, Structural)]
pub struct PollFd {
    pub handle: u32,
    pub events: u16,
    pub revents: u16,
}

impl PollFd {
    /// A descriptor that asks for `events` on `handle`; nothing is reported
    /// yet.
    pub fn new(handle: &Handle, events: u16) -> (fd: PollFd)
        ensures
            fd == (PollFd { handle: handle.0, events, revents: 0 }),
    {
        PollFd { handle: handle.raw(), events, revents: 0 }
    }

    /// True when the kernel reported at least one of the bits of `event`.
    pub fn has_event(&self, event: u16) -> (b: bool)
        ensures
            b == ((self.revents & event) != 0),
    {
        (self.revents & event) != 0
    }
}

/// Decodes what a poll call answered: the number of handles with events.
pub fn poll(reply: isize) -> (r: SysResult<usize>)
    ensures
        r == crate::syscall::error::reply_of(reply),
{
    crate::syscall::error::check_error(reply)
}

/// A key or mouse event.
#[derive(Debug, Clone, Copy, PartialEq, Eq, Structural)]
pub struct InputEvent {
    pub op: u32,
    pub event_type: u32,
    pub param1: u32,
    pub param2: u32,
}

impl InputEvent {
    /// Bytes of the record on the wire.
    pub const SIZE: usize = 16;

    /// The record whose fields stand in `bytes`.
    pub open spec fn fields_of(bytes: Seq<u8>) -> InputEvent {
        InputEvent {
            op: le_u32(bytes, 0) as u32,
            event_type: le_u32(bytes, 4) as u32,
            param1: le_u32(bytes, 8) as u32,
            param2: le_u32(bytes, 12) as u32,
        }
    }

    /// The bytes of the record.
    pub open spec fn wire(self) -> Seq<u8> {
        u32_le(self.op) + u32_le(self.event_type) + u32_le(self.param1) + u32_le(self.param2)
    }

    /// Writes the record.
    pub fn encode(&self) -> (out: Vec<u8>)
        ensures
            out@ == self.wire(),
            out@.len() == 16,
    {
        let mut out: Vec<u8> = Vec::new();
        push_u32(&mut out, self.op);
        push_u32(&mut out, self.event_type);
        push_u32(&mut out, self.param1);
        push_u32(&mut out, self.param2);
        assert(out@ =~= self.wire());
        out
    }

    /// Reads the record. A frame that is too short, or whose opcode is not
    /// `EVENT_INPUT`, is a protocol error.
    pub fn decode(bytes: &[u8]) -> (r: SysResult<InputEvent>)
        ensures
            r is Ok <==> bytes@.len() >= 16 && le_u32(bytes@, 0) == opcodes::EVENT_INPUT,
            r is Ok ==> r->Ok_0 == InputEvent::fields_of(bytes@),
            r is Err ==> r->Err_0 == SysError::ProtocolError,
    {
        if bytes.len() < 16 {
            return Err(SysError::ProtocolError);
        }
        let op: u32 = read_u32(bytes, 0);
        if op != opcodes::EVENT_INPUT {
            return Err(SysError::ProtocolError);
        }
        Ok(
            InputEvent {
                op,
                event_type: read_u32(bytes, 4),
                param1: read_u32(bytes, 8),
                param2: read_u32(bytes, 12),
            },
        )
    }
}

/// The surface changed size.
#[derive(Debug, Clone, Copy, PartialEq, Eq, Structural)]
pub struct ResizeEvent {
    pub op: u32,
    pub width: u32,
    pub height: u32,
}

impl ResizeEvent {
    /// Bytes of the record on the wire.
    pub const SIZE: usize = 12;

    /// The record whose fields stand in `bytes`.
    pub open spec fn fields_of(bytes: Seq<u8>) -> ResizeEvent {
        ResizeEvent {
            op: le_u32(bytes, 0) as u32,
            width: le_u32(bytes, 4) as u32,
            height: le_u32(bytes, 8) as u32,
        }
    }

    /// The bytes of the record.
    pub open spec fn wire(self) -> Seq<u8> {
        u32_le(self.op) + u32_le(self.width) + u32_le(self.height)
    }

    /// Writes the record.
    pub fn encode(&self) -> (out: Vec<u8>)
        ensures
            out@ == self.wire(),
            out@.len() == 12,
    {
        let mut out: Vec<u8> = Vec::new();
        push_u32(&mut out, self.op);
        push_u32(&mut out, self.width);
        push_u32(&mut out, self.height);
        assert(out@ =~= self.wire());
        out
    }

    /// Reads the record. A frame that is too short, or whose opcode is not
    /// `EVENT_RESIZE`, is a protocol error.
    pub fn decode(bytes: &[u8]) -> (r: SysResult<ResizeEvent>)
        ensures
            r is Ok <==> bytes@.len() >= 12 && le_u32(bytes@, 0) == opcodes::EVENT_RESIZE,
            r is Ok ==> r->Ok_0 == ResizeEvent::fields_of(bytes@),
            r is Err ==> r->Err_0 == SysError::ProtocolError,
    {
        if bytes.len() < 12 {
            return Err(SysError::ProtocolError);
        }
        let op: u32 = read_u32(bytes, 0);
        if op != opcodes::EVENT_RESIZE {
            return Err(SysError::ProtocolError);
        }
        Ok(ResizeEvent { op, width: read_u32(bytes, 4), height: read_u32(bytes, 8) })
    }
}

/// A notification pushed by the server.
#[derive(Debug, Clone, Copy)]
pub enum Event {
    /// Key or mouse input.
    Input(InputEvent),
    /// The surface changed size.
    Resize(ResizeEvent),
    /// A window was created, destroyed, minimized, restored or changed
    /// focus.
    Lifecycle(WindowLifecycleEvent),
    /// A frame whose opcode this client does not know.
    Unknown,
}

/// True when `r` is what the frame `bytes` decodes to. The opcode is read
/// first; only then is the rest of the frame read, as the record that the
/// opcode names. A frame shorter than its opcode, or shorter than that
/// record, is a protocol error; an opcode that names no event is `Unknown`.
pub open spec fn is_event_of(r: SysResult<Event>, bytes: Seq<u8>) -> bool {
    if bytes.len() < 4 {
        r == Err::<Event, SysError>(SysError::ProtocolError)
    } else if le_u32(bytes, 0) == opcodes::EVENT_INPUT {
        if bytes.len() < 16 {
            r == Err::<Event, SysError>(SysError::ProtocolError)
        } else {
            r == Ok::<Event, SysError>(Event::Input(InputEvent::fields_of(bytes)))
        }
    } else if le_u32(bytes, 0) == opcodes::EVENT_RESIZE {
        if bytes.len() < 12 {
            r == Err::<Event, SysError>(SysError::ProtocolError)
        } else {
            r == Ok::<Event, SysError>(Event::Resize(ResizeEvent::fields_of(bytes)))
        }
    } else if le_u32(bytes, 0) == opcodes::EVENT_WINDOW_LIFECYCLE {
        if bytes.len() < 76 {
            r == Err::<Event, SysError>(SysError::ProtocolError)
        } else {
            r matches Ok(Event::Lifecycle(e)) && e.reads(bytes)
        }
    } else {
        r == Ok::<Event, SysError>(Event::Unknown)
    }
}

impl Event {
    /// Decodes one received frame. A frame shorter than its opcode, or
    /// shorter than the record that its opcode names, is a protocol error;
    /// a frame with any other opcode is `Unknown`.
    pub fn decode(bytes: &[u8]) -> (r: SysResult<Event>)
        ensures
            is_event_of(r, bytes@),
    {
        if bytes.len() < 4 {
            return Err(SysError::ProtocolError);
        }
        let op: u32 = read_u32(bytes, 0);
        if op == opcodes::EVENT_INPUT {
            match InputEvent::decode(bytes) {
                Ok(e) => Ok(Event::Input(e)),
                Err(e) => Err(e),
            }
        } else if op == opcodes::EVENT_RESIZE {
            match ResizeEvent::decode(bytes) {
                Ok(e) => Ok(Event::Resize(e)),
                Err(e) => Err(e),
            }
        } else if op == opcodes::EVENT_WINDOW_LIFECYCLE {
            match WindowLifecycleEvent::decode(bytes) {
                Ok(e) => Ok(Event::Lifecycle(e)),
                Err(e) => Err(e),
            }
        } else {
            Ok(Event::Unknown)
        }
    }
}

} // verus!
