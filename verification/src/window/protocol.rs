//! Messages of the window protocol.
//!
//! A frame is at most `MAX_MSG_SIZE` bytes. Its first four bytes are the
//! opcode; what follows is laid out as the opcode says, every number
//! little-endian, every text field of fixed size. A reader checks the
//! length and the opcode before it reads anything else.

use vstd::prelude::*;

use crate::encoding::{
    bits_i32, i32_bits, i32_from_bits, i32_to_bits, le_u32, le_u64, push_bytes, push_u32,
    push_u64, read_array, read_u32, read_u64, u32_le, u64_le,
};
use crate::syscall::error::{SysError, SysResult};
use crate::window::client_msg;
use crate::window::opcodes;

verus! {

/// Name of the port on which the compositor takes requests.
pub const COMPOSITOR_PORT: &'static str = "firefly.compositor";

/// Largest frame of the protocol, in bytes.
pub const MAX_MSG_SIZE: usize = 256;

/// The opcode of a frame: its first four bytes.
pub open spec fn opcode_of(bytes: Seq<u8>) -> int {
    le_u32(bytes, 0)
}

/// Reads the opcode of a frame; `None` when the frame is shorter than an
/// opcode.
pub fn read_opcode(bytes: &[u8]) -> (op: Option<u32>)
    ensures
        bytes@.len() < 4 ==> op is None,
        bytes@.len() >= 4 ==> op == Some(opcode_of(bytes@) as u32),
{
    if bytes.len() < 4 {
        None
    } else {
        Some(read_u32(bytes, 0))
    }
}

// ---------------------------------------------------------------------------
// Requests
// ---------------------------------------------------------------------------
/// Asks the server for a window.
#[derive(Debug, Clone, Copy, PartialEq, Eq)]
pub struct CreateWindowRequest {
    pub op: u32,
    pub x: u32,
    pub y: u32,
    pub width: u32,
    pub height: u32,
    pub flags: u32,
    /// Name of the port on which the server answers, padded with zeros.
    pub reply_port: [u8; 32],
    /// Title of the window, padded with zeros.
    pub title: [u8; 64],
}

impl CreateWindowRequest {
    /// Bytes of the record on the wire.
    pub const SIZE: usize = 120;

    /// The bytes of the record.
    pub open spec fn wire(self) -> Seq<u8> {
        u32_le(self.op) + u32_le(self.x) + u32_le(self.y) + u32_le(self.width) + u32_le(
            self.height,
        ) + u32_le(self.flags) + self.reply_port@ + self.title@
    }

    /// True when the fields of `self` are those that stand in `bytes`.
    pub open spec fn reads(self, bytes: Seq<u8>) -> bool {
        &&& self.op == le_u32(bytes, 0)
        &&& self.x == le_u32(bytes, 4)
        &&& self.y == le_u32(bytes, 8)
        &&& self.width == le_u32(bytes, 12)
        &&& self.height == le_u32(bytes, 16)
        &&& self.flags == le_u32(bytes, 20)
        &&& self.reply_port@ == bytes.subrange(24, 56)
        &&& self.title@ == bytes.subrange(56, 120)
    }

    /// Writes the record.
    pub fn encode(&self) -> (out: Vec<u8>)
        ensures
            out@ == self.wire(),
            out@.len() == 120,
    {
        let mut out: Vec<u8> = Vec::new();
        push_u32(&mut out, self.op);
        push_u32(&mut out, self.x);
        push_u32(&mut out, self.y);
        push_u32(&mut out, self.width);
        push_u32(&mut out, self.height);
        push_u32(&mut out, self.flags);
        push_bytes(&mut out, self.reply_port.as_slice());
        push_bytes(&mut out, self.title.as_slice());
        assert(out@ =~= self.wire());
        out
    }

    /// Reads the record. A frame that is too short, or whose opcode is not
    /// `CREATE_WINDOW`, is a protocol error.
    pub fn decode(bytes: &[u8]) -> (r: SysResult<CreateWindowRequest>)
        ensures
            r is Ok <==> bytes@.len() >= 120 && opcode_of(bytes@) == opcodes::CREATE_WINDOW,
            r is Ok ==> r->Ok_0.reads(bytes@),
            r is Err ==> r->Err_0 == SysError::ProtocolError,
    {
        if bytes.len() < 120 {
            return Err(SysError::ProtocolError);
        }
        let op: u32 = read_u32(bytes, 0);
        if op != opcodes::CREATE_WINDOW {
            return Err(SysError::ProtocolError);
        }
        Ok(
            CreateWindowRequest {
                op,
                x: read_u32(bytes, 4),
                y: read_u32(bytes, 8),
                width: read_u32(bytes, 12),
                height: read_u32(bytes, 16),
                flags: read_u32(bytes, 20),
                reply_port: read_array::<32>(bytes, 24),
                title: read_array::<64>(bytes, 56),
            },
        )
    }
}

/// Registers the sender as the task bar: lifecycle events of every window
/// go to the named port.
#[derive(Debug, Clone, Copy, PartialEq, Eq)]
pub struct RegisterTaskbarRequest {
    pub op: u32,
    /// Name of the port that receives the events, padded with zeros.
    pub listener_port: [u8; 32],
}

impl RegisterTaskbarRequest {
    /// Bytes of the record on the wire.
    pub const SIZE: usize = 36;

    /// The bytes of the record.
    pub open spec fn wire(self) -> Seq<u8> {
        u32_le(self.op) + self.listener_port@
    }

    /// True when the fields of `self` are those that stand in `bytes`.
    pub open spec fn reads(self, bytes: Seq<u8>) -> bool {
        &&& self.op == le_u32(bytes, 0)
        &&& self.listener_port@ == bytes.subrange(4, 36)
    }

    /// Writes the record.
    pub fn encode(&self) -> (out: Vec<u8>)
        ensures
            out@ == self.wire(),
            out@.len() == 36,
    {
        let mut out: Vec<u8> = Vec::new();
        push_u32(&mut out, self.op);
        push_bytes(&mut out, self.listener_port.as_slice());
        assert(out@ =~= self.wire());
        out
    }

    /// Reads the record. A frame that is too short, or whose opcode is not
    /// `REGISTER_TASKBAR`, is a protocol error.
    pub fn decode(bytes: &[u8]) -> (r: SysResult<RegisterTaskbarRequest>)
        ensures
            r is Ok <==> bytes@.len() >= 36 && opcode_of(bytes@) == opcodes::REGISTER_TASKBAR,
            r is Ok ==> r->Ok_0.reads(bytes@),
            r is Err ==> r->Err_0 == SysError::ProtocolError,
    {
        if bytes.len() < 36 {
            return Err(SysError::ProtocolError);
        }
        let op: u32 = read_u32(bytes, 0);
        if op != opcodes::REGISTER_TASKBAR {
            return Err(SysError::ProtocolError);
        }
        Ok(RegisterTaskbarRequest { op, listener_port: read_array::<32>(bytes, 4) })
    }
}

/// Asks the server to destroy a window.
#[derive(Debug, Clone, Copy, PartialEq, Eq, Structural)]
pub struct DestroyWindowRequest {
    pub op: u32,
    pub window_id: u32,
}

impl DestroyWindowRequest {
    /// Bytes of the record on the wire.
    pub const SIZE: usize = 8;

    /// The record whose fields stand in `bytes`.
    pub open spec fn fields_of(bytes: Seq<u8>) -> DestroyWindowRequest {
        DestroyWindowRequest { op: le_u32(bytes, 0) as u32, window_id: le_u32(bytes, 4) as u32 }
    }

    /// The bytes of the record.
    pub open spec fn wire(self) -> Seq<u8> {
        u32_le(self.op) + u32_le(self.window_id)
    }

    /// Writes the record.
    pub fn encode(&self) -> (out: Vec<u8>)
        ensures
            out@ == self.wire(),
            out@.len() == 8,
    {
        let mut out: Vec<u8> = Vec::new();
        push_u32(&mut out, self.op);
        push_u32(&mut out, self.window_id);
        assert(out@ =~= self.wire());
        out
    }

    /// Reads the record. A frame that is too short, or whose opcode is not
    /// `DESTROY_WINDOW`, is a protocol error.
    pub fn decode(bytes: &[u8]) -> (r: SysResult<DestroyWindowRequest>)
        ensures
            r is Ok <==> bytes@.len() >= 8 && opcode_of(bytes@) == opcodes::DESTROY_WINDOW,
            r is Ok ==> r->Ok_0 == DestroyWindowRequest::fields_of(bytes@),
            r is Err ==> r->Err_0 == SysError::ProtocolError,
    {
        if bytes.len() < 8 {
            return Err(SysError::ProtocolError);
        }
        let op: u32 = read_u32(bytes, 0);
        if op != opcodes::DESTROY_WINDOW {
            return Err(SysError::ProtocolError);
        }
        Ok(DestroyWindowRequest { op, window_id: read_u32(bytes, 4) })
    }
}

/// Tells the server that the pixels of a rectangle are ready to be read.
#[derive(Debug, Clone, Copy, PartialEq, Eq, Structural)]
pub struct CommitBufferRequest {
    pub op: u32,
    pub window_id: u32,
    /// Left edge of the dirty rectangle.
    pub x: u32,
    /// Top edge of the dirty rectangle.
    pub y: u32,
    /// Width of the dirty rectangle.
    pub width: u32,
    /// Height of the dirty rectangle.
    pub height: u32,
}

impl CommitBufferRequest {
    /// Bytes of the record on the wire.
    pub const SIZE: usize = 24;

    /// The record whose fields stand in `bytes`.
    pub open spec fn fields_of(bytes: Seq<u8>) -> CommitBufferRequest {
        CommitBufferRequest {
            op: le_u32(bytes, 0) as u32,
            window_id: le_u32(bytes, 4) as u32,
            x: le_u32(bytes, 8) as u32,
            y: le_u32(bytes, 12) as u32,
            width: le_u32(bytes, 16) as u32,
            height: le_u32(bytes, 20) as u32,
        }
    }

    /// The bytes of the record.
    pub open spec fn wire(self) -> Seq<u8> {
        u32_le(self.op) + u32_le(self.window_id) + u32_le(self.x) + u32_le(self.y) + u32_le(
            self.width,
        ) + u32_le(self.height)
    }

    /// Writes the record.
    pub fn encode(&self) -> (out: Vec<u8>)
        ensures
            out@ == self.wire(),
            out@.len() == 24,
    {
        let mut out: Vec<u8> = Vec::new();
        push_u32(&mut out, self.op);
        push_u32(&mut out, self.window_id);
        push_u32(&mut out, self.x);
        push_u32(&mut out, self.y);
        push_u32(&mut out, self.width);
        push_u32(&mut out, self.height);
        assert(out@ =~= self.wire());
        out
    }

    /// Reads the record. A frame that is too short, or whose opcode is not
    /// `COMMIT_BUFFER`, is a protocol error.
    pub fn decode(bytes: &[u8]) -> (r: SysResult<CommitBufferRequest>)
        ensures
            r is Ok <==> bytes@.len() >= 24 && opcode_of(bytes@) == opcodes::COMMIT_BUFFER,
            r is Ok ==> r->Ok_0 == CommitBufferRequest::fields_of(bytes@),
            r is Err ==> r->Err_0 == SysError::ProtocolError,
    {
        if bytes.len() < 24 {
            return Err(SysError::ProtocolError);
        }
        let op: u32 = read_u32(bytes, 0);
        if op != opcodes::COMMIT_BUFFER {
            return Err(SysError::ProtocolError);
        }
        Ok(
            CommitBufferRequest {
                op,
                window_id: read_u32(bytes, 4),
                x: read_u32(bytes, 8),
                y: read_u32(bytes, 12),
                width: read_u32(bytes, 16),
                height: read_u32(bytes, 20),
            },
        )
    }
}

/// Tells the server that the whole buffer of a window is ready, in version
/// 1 of the protocol, which names no rectangle.
#[derive(Debug, Clone, Copy, PartialEq, Eq, Structural)]
pub struct BufferReadyRequest {
    pub msg_id: u32,
    pub window_id: u32,
}

impl BufferReadyRequest {
    /// Bytes of the record on the wire.
    pub const SIZE: usize = 8;

    /// The record whose fields stand in `bytes`.
    pub open spec fn fields_of(bytes: Seq<u8>) -> BufferReadyRequest {
        BufferReadyRequest { msg_id: le_u32(bytes, 0) as u32, window_id: le_u32(bytes, 4) as u32 }
    }

    /// The bytes of the record.
    pub open spec fn wire(self) -> Seq<u8> {
        u32_le(self.msg_id) + u32_le(self.window_id)
    }

    /// Writes the record.
    pub fn encode(&self) -> (out: Vec<u8>)
        ensures
            out@ == self.wire(),
            out@.len() == 8,
    {
        let mut out: Vec<u8> = Vec::new();
        push_u32(&mut out, self.msg_id);
        push_u32(&mut out, self.window_id);
        assert(out@ =~= self.wire());
        out
    }

    /// Reads the record. A frame that is too short, or whose identifier is
    /// not `BUFFER_READY`, is a protocol error.
    pub fn decode(bytes: &[u8]) -> (r: SysResult<BufferReadyRequest>)
        ensures
            r is Ok <==> bytes@.len() >= 8 && opcode_of(bytes@) == client_msg::BUFFER_READY,
            r is Ok ==> r->Ok_0 == BufferReadyRequest::fields_of(bytes@),
            r is Err ==> r->Err_0 == SysError::ProtocolError,
    {
        if bytes.len() < 8 {
            return Err(SysError::ProtocolError);
        }
        let msg_id: u32 = read_u32(bytes, 0);
        if msg_id != client_msg::BUFFER_READY {
            return Err(SysError::ProtocolError);
        }
        Ok(BufferReadyRequest { msg_id, window_id: read_u32(bytes, 4) })
    }
}

/// A request that names a window and nothing else: minimize or restore.
#[derive(Debug, Clone, Copy, PartialEq, Eq, Structural)]
pub struct WindowOpRequest {
    pub op: u32,
    pub window_id: u32,
}

impl WindowOpRequest {
    /// Bytes of the record on the wire.
    pub const SIZE: usize = 8;

    /// The record whose fields stand in `bytes`.
    pub open spec fn fields_of(bytes: Seq<u8>) -> WindowOpRequest {
        WindowOpRequest { op: le_u32(bytes, 0) as u32, window_id: le_u32(bytes, 4) as u32 }
    }

    /// The bytes of the record.
    pub open spec fn wire(self) -> Seq<u8> {
        u32_le(self.op) + u32_le(self.window_id)
    }

    /// Writes the record.
    pub fn encode(&self) -> (out: Vec<u8>)
        ensures
            out@ == self.wire(),
            out@.len() == 8,
    {
        let mut out: Vec<u8> = Vec::new();
        push_u32(&mut out, self.op);
        push_u32(&mut out, self.window_id);
        assert(out@ =~= self.wire());
        out
    }

    /// Reads the record. A frame that is too short, or whose opcode is
    /// neither `MINIMIZE_WINDOW` nor `RESTORE_WINDOW`, is a protocol error.
    pub fn decode(bytes: &[u8]) -> (r: SysResult<WindowOpRequest>)
        ensures
            r is Ok <==> bytes@.len() >= 8 && (opcode_of(bytes@) == opcodes::MINIMIZE_WINDOW
                || opcode_of(bytes@) == opcodes::RESTORE_WINDOW),
            r is Ok ==> r->Ok_0 == WindowOpRequest::fields_of(bytes@),
            r is Err ==> r->Err_0 == SysError::ProtocolError,
    {
        if bytes.len() < 8 {
            return Err(SysError::ProtocolError);
        }
        let op: u32 = read_u32(bytes, 0);
        if op != opcodes::MINIMIZE_WINDOW && op != opcodes::RESTORE_WINDOW {
            return Err(SysError::ProtocolError);
        }
        Ok(WindowOpRequest { op, window_id: read_u32(bytes, 4) })
    }
}

/// Asks the server to move a window.
#[derive(Debug, Clone, Copy, PartialEq, Eq, Structural)]
pub struct MoveWindowRequest {
    pub op: u32,
    pub window_id: u32,
    pub x: i32,
    pub y: i32,
}

impl MoveWindowRequest {
    /// Bytes of the record on the wire.
    pub const SIZE: usize = 16;

    /// The record whose fields stand in `bytes`.
    pub open spec fn fields_of(bytes: Seq<u8>) -> MoveWindowRequest {
        MoveWindowRequest {
            op: le_u32(bytes, 0) as u32,
            window_id: le_u32(bytes, 4) as u32,
            x: bits_i32(le_u32(bytes, 8) as u32),
            y: bits_i32(le_u32(bytes, 12) as u32),
        }
    }

    /// The bytes of the record.
    pub open spec fn wire(self) -> Seq<u8> {
        u32_le(self.op) + u32_le(self.window_id) + u32_le(i32_bits(self.x)) + u32_le(
            i32_bits(self.y),
        )
    }

    /// Writes the record.
    pub fn encode(&self) -> (out: Vec<u8>)
        ensures
            out@ == self.wire(),
            out@.len() == 16,
    {
        let mut out: Vec<u8> = Vec::new();
        push_u32(&mut out, self.op);
        push_u32(&mut out, self.window_id);
        push_u32(&mut out, i32_to_bits(self.x));
        push_u32(&mut out, i32_to_bits(self.y));
        assert(out@ =~= self.wire());
        out
    }

    /// Reads the record. A frame that is too short, or whose opcode is not
    /// `MOVE_WINDOW`, is a protocol error.
    pub fn decode(bytes: &[u8]) -> (r: SysResult<MoveWindowRequest>)
        ensures
            r is Ok <==> bytes@.len() >= 16 && opcode_of(bytes@) == opcodes::MOVE_WINDOW,
            r is Ok ==> r->Ok_0 == MoveWindowRequest::fields_of(bytes@),
            r is Err ==> r->Err_0 == SysError::ProtocolError,
    {
        if bytes.len() < 16 {
            return Err(SysError::ProtocolError);
        }
        let op: u32 = read_u32(bytes, 0);
        if op != opcodes::MOVE_WINDOW {
            return Err(SysError::ProtocolError);
        }
        Ok(
            MoveWindowRequest {
                op,
                window_id: read_u32(bytes, 4),
                x: i32_from_bits(read_u32(bytes, 8)),
                y: i32_from_bits(read_u32(bytes, 12)),
            },
        )
    }
}

/// Asks the server to resize a window.
#[derive(Debug, Clone, Copy, PartialEq, Eq, Structural)]
pub struct ResizeWindowRequest {
    pub op: u32,
    pub window_id: u32,
    pub width: u32,
    pub height: u32,
}

impl ResizeWindowRequest {
    /// Bytes of the record on the wire.
    pub const SIZE: usize = 16;

    /// The record whose fields stand in `bytes`.
    pub open spec fn fields_of(bytes: Seq<u8>) -> ResizeWindowRequest {
        ResizeWindowRequest {
            op: le_u32(bytes, 0) as u32,
            window_id: le_u32(bytes, 4) as u32,
            width: le_u32(bytes, 8) as u32,
            height: le_u32(bytes, 12) as u32,
        }
    }

    /// The bytes of the record.
    pub open spec fn wire(self) -> Seq<u8> {
        u32_le(self.op) + u32_le(self.window_id) + u32_le(self.width) + u32_le(self.height)
    }

    /// Writes the record.
    pub fn encode(&self) -> (out: Vec<u8>)
        ensures
            out@ == self.wire(),
            out@.len() == 16,
    {
        let mut out: Vec<u8> = Vec::new();
        push_u32(&mut out, self.op);
        push_u32(&mut out, self.window_id);
        push_u32(&mut out, self.width);
        push_u32(&mut out, self.height);
        assert(out@ =~= self.wire());
        out
    }

    /// Reads the record. A frame that is too short, or whose opcode is not
    /// `RESIZE_WINDOW`, is a protocol error.
    pub fn decode(bytes: &[u8]) -> (r: SysResult<ResizeWindowRequest>)
        ensures
            r is Ok <==> bytes@.len() >= 16 && opcode_of(bytes@) == opcodes::RESIZE_WINDOW,
            r is Ok ==> r->Ok_0 == ResizeWindowRequest::fields_of(bytes@),
            r is Err ==> r->Err_0 == SysError::ProtocolError,
    {
        if bytes.len() < 16 {
            return Err(SysError::ProtocolError);
        }
        let op: u32 = read_u32(bytes, 0);
        if op != opcodes::RESIZE_WINDOW {
            return Err(SysError::ProtocolError);
        }
        Ok(
            ResizeWindowRequest {
                op,
                window_id: read_u32(bytes, 4),
                width: read_u32(bytes, 8),
                height: read_u32(bytes, 12),
            },
        )
    }
}

/// Asks the server to replace the flags of a window.
#[derive(Debug, Clone, Copy, PartialEq, Eq, Structural)]
pub struct SetWindowFlagsRequest {
    pub op: u32,
    pub window_id: u32,
    pub flags: u32,
}

impl SetWindowFlagsRequest {
    /// Bytes of the record on the wire.
    pub const SIZE: usize = 12;

    /// The record whose fields stand in `bytes`.
    pub open spec fn fields_of(bytes: Seq<u8>) -> SetWindowFlagsRequest {
        SetWindowFlagsRequest {
            op: le_u32(bytes, 0) as u32,
            window_id: le_u32(bytes, 4) as u32,
            flags: le_u32(bytes, 8) as u32,
        }
    }

    /// The bytes of the record.
    pub open spec fn wire(self) -> Seq<u8> {
        u32_le(self.op) + u32_le(self.window_id) + u32_le(self.flags)
    }

    /// Writes the record.
    pub fn encode(&self) -> (out: Vec<u8>)
        ensures
            out@ == self.wire(),
            out@.len() == 12,
    {
        let mut out: Vec<u8> = Vec::new();
        push_u32(&mut out, self.op);
        push_u32(&mut out, self.window_id);
        push_u32(&mut out, self.flags);
        assert(out@ =~= self.wire());
        out
    }

    /// Reads the record. A frame that is too short, or whose opcode is not
    /// `SET_WINDOW_FLAGS`, is a protocol error.
    pub fn decode(bytes: &[u8]) -> (r: SysResult<SetWindowFlagsRequest>)
        ensures
            r is Ok <==> bytes@.len() >= 12 && opcode_of(bytes@) == opcodes::SET_WINDOW_FLAGS,
            r is Ok ==> r->Ok_0 == SetWindowFlagsRequest::fields_of(bytes@),
            r is Err ==> r->Err_0 == SysError::ProtocolError,
    {
        if bytes.len() < 12 {
            return Err(SysError::ProtocolError);
        }
        let op: u32 = read_u32(bytes, 0);
        if op != opcodes::SET_WINDOW_FLAGS {
            return Err(SysError::ProtocolError);
        }
        Ok(SetWindowFlagsRequest { op, window_id: read_u32(bytes, 4), flags: read_u32(bytes, 8) })
    }
}

// ---------------------------------------------------------------------------
// Responses
// ---------------------------------------------------------------------------
/// The server's answer to a create request.
#[derive(Debug, Clone, Copy, PartialEq, Eq, Structural)]
pub struct WindowCreatedResponse {
    pub op: u32,
    /// Identifier that the server gave the window.
    pub window_id: u32,
    /// Identifier of the shared region that holds the pixels.
    pub shm_handle: u64,
    /// Size of that region in bytes.
    pub buffer_size: u64,
}

impl WindowCreatedResponse {
    /// Bytes of the record on the wire.
    pub const SIZE: usize = 24;

    /// The record whose fields stand in `bytes`.
    pub open spec fn fields_of(bytes: Seq<u8>) -> WindowCreatedResponse {
        WindowCreatedResponse {
            op: le_u32(bytes, 0) as u32,
            window_id: le_u32(bytes, 4) as u32,
            shm_handle: le_u64(bytes, 8) as u64,
            buffer_size: le_u64(bytes, 16) as u64,
        }
    }

    /// The bytes of the record.
    pub open spec fn wire(self) -> Seq<u8> {
        u32_le(self.op) + u32_le(self.window_id) + u64_le(self.shm_handle) + u64_le(
            self.buffer_size,
        )
    }

    /// Writes the record.
    pub fn encode(&self) -> (out: Vec<u8>)
        ensures
            out@ == self.wire(),
            out@.len() == 24,
    {
        let mut out: Vec<u8> = Vec::new();
        push_u32(&mut out, self.op);
        push_u32(&mut out, self.window_id);
        push_u64(&mut out, self.shm_handle);
        push_u64(&mut out, self.buffer_size);
        assert(out@ =~= self.wire());
        out
    }

    /// Reads the record. A frame that is too short, or whose opcode is not
    /// `WINDOW_CREATED`, is a protocol error: a short frame is never filled
    /// up with zeros.
    pub fn decode(bytes: &[u8]) -> (r: SysResult<WindowCreatedResponse>)
        ensures
            r is Ok <==> bytes@.len() >= 24 && opcode_of(bytes@) == opcodes::WINDOW_CREATED,
            r is Ok ==> r->Ok_0 == WindowCreatedResponse::fields_of(bytes@),
            r is Err ==> r->Err_0 == SysError::ProtocolError,
    {
        if bytes.len() < 24 {
            return Err(SysError::ProtocolError);
        }
        let op: u32 = read_u32(bytes, 0);
        if op != opcodes::WINDOW_CREATED {
            return Err(SysError::ProtocolError);
        }
        Ok(
            WindowCreatedResponse {
                op,
                window_id: read_u32(bytes, 4),
                shm_handle: read_u64(bytes, 8),
                buffer_size: read_u64(bytes, 16),
            },
        )
    }
}

/// The server's refusal.
#[derive(Debug, Clone, Copy, PartialEq, Eq, Structural)]
pub struct ErrorResponse {
    pub op: u32,
    pub code: u32,
}

impl ErrorResponse {
    /// Bytes of the record on the wire.
    pub const SIZE: usize = 8;

    /// The record whose fields stand in `bytes`.
    pub open spec fn fields_of(bytes: Seq<u8>) -> ErrorResponse {
        ErrorResponse { op: le_u32(bytes, 0) as u32, code: le_u32(bytes, 4) as u32 }
    }

    /// The bytes of the record.
    pub open spec fn wire(self) -> Seq<u8> {
        u32_le(self.op) + u32_le(self.code)
    }

    /// Writes the record.
    pub fn encode(&self) -> (out: Vec<u8>)
        ensures
            out@ == self.wire(),
            out@.len() == 8,
    {
        let mut out: Vec<u8> = Vec::new();
        push_u32(&mut out, self.op);
        push_u32(&mut out, self.code);
        assert(out@ =~= self.wire());
        out
    }

    /// Reads the record. A frame that is too short, or whose opcode is not
    /// `ERROR`, is a protocol error.
    pub fn decode(bytes: &[u8]) -> (r: SysResult<ErrorResponse>)
        ensures
            r is Ok <==> bytes@.len() >= 8 && opcode_of(bytes@) == opcodes::ERROR,
            r is Ok ==> r->Ok_0 == ErrorResponse::fields_of(bytes@),
            r is Err ==> r->Err_0 == SysError::ProtocolError,
    {
        if bytes.len() < 8 {
            return Err(SysError::ProtocolError);
        }
        let op: u32 = read_u32(bytes, 0);
        if op != opcodes::ERROR {
            return Err(SysError::ProtocolError);
        }
        Ok(ErrorResponse { op, code: read_u32(bytes, 4) })
    }
}

/// A window was created, destroyed, minimized, restored, or changed focus.
#[derive(Debug, Clone, Copy, PartialEq, Eq)]
pub struct WindowLifecycleEvent {
    pub op: u32,
    /// One of the codes of `lifecycle_events`.
    pub event_type: u32,
    pub window_id: u32,
    /// Title of the window, padded with zeros.
    pub title: [u8; 64],
}

impl WindowLifecycleEvent {
    /// Bytes of the record on the wire.
    pub const SIZE: usize = 76;

    /// The bytes of the record.
    pub open spec fn wire(self) -> Seq<u8> {
        u32_le(self.op) + u32_le(self.event_type) + u32_le(self.window_id) + self.title@
    }

    /// True when the fields of `self` are those that stand in `bytes`.
    pub open spec fn reads(self, bytes: Seq<u8>) -> bool {
        &&& self.op == le_u32(bytes, 0)
        &&& self.event_type == le_u32(bytes, 4)
        &&& self.window_id == le_u32(bytes, 8)
        &&& self.title@ == bytes.subrange(12, 76)
    }

    /// Writes the record.
    pub fn encode(&self) -> (out: Vec<u8>)
        ensures
            out@ == self.wire(),
            out@.len() == 76,
    {
        let mut out: Vec<u8> = Vec::new();
        push_u32(&mut out, self.op);
        push_u32(&mut out, self.event_type);
        push_u32(&mut out, self.window_id);
        push_bytes(&mut out, self.title.as_slice());
        assert(out@ =~= self.wire());
        out
    }

    /// Reads the record. A frame that is too short, or whose opcode is not
    /// `EVENT_WINDOW_LIFECYCLE`, is a protocol error.
    pub fn decode(bytes: &[u8]) -> (r: SysResult<WindowLifecycleEvent>)
        ensures
            r is Ok <==> bytes@.len() >= 76 && opcode_of(bytes@)
                == opcodes::EVENT_WINDOW_LIFECYCLE,
            r is Ok ==> r->Ok_0.reads(bytes@),
            r is Err ==> r->Err_0 == SysError::ProtocolError,
    {
        if bytes.len() < 76 {
            return Err(SysError::ProtocolError);
        }
        let op: u32 = read_u32(bytes, 0);
        if op != opcodes::EVENT_WINDOW_LIFECYCLE {
            return Err(SysError::ProtocolError);
        }
        Ok(
            WindowLifecycleEvent {
                op,
                event_type: read_u32(bytes, 4),
                window_id: read_u32(bytes, 8),
                title: read_array::<64>(bytes, 12),
            },
        )
    }
}

} // verus!
