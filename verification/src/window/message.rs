//! A frame as a tagged value: one variant per record of the protocol, and
//! one checked function that turns bytes into it.

use vstd::prelude::*;

use crate::event::{InputEvent, ResizeEvent};
use crate::syscall::error::{SysError, SysResult};
use crate::window::opcodes;
use crate::window::protocol::{
    opcode_of, read_opcode, CommitBufferRequest, CreateWindowRequest, DestroyWindowRequest,
    ErrorResponse, MoveWindowRequest, RegisterTaskbarRequest, ResizeWindowRequest,
    SetWindowFlagsRequest, WindowCreatedResponse, WindowLifecycleEvent, WindowOpRequest,
};

verus! {

/// Any message of the protocol.
#[derive(Debug, Clone, Copy, PartialEq, Eq)]
pub enum ProtocolMessage {
    CreateWindow(CreateWindowRequest),
    DestroyWindow(DestroyWindowRequest),
    CommitBuffer(CommitBufferRequest),
    WindowOp(WindowOpRequest),
    MoveWindow(MoveWindowRequest),
    ResizeWindow(ResizeWindowRequest),
    SetWindowFlags(SetWindowFlagsRequest),
    RegisterTaskbar(RegisterTaskbarRequest),
    WindowCreated(WindowCreatedResponse),
    Input(InputEvent),
    Resize(ResizeEvent),
    Lifecycle(WindowLifecycleEvent),
    Error(ErrorResponse),
    /// A frame whose opcode names no record; the opcode is kept.
    Unknown(u32),
}

/// Bytes of the record that an opcode names; an opcode that names no
/// record stands alone, in four bytes.
pub open spec fn record_size(op: int) -> int {
    if op == opcodes::CREATE_WINDOW {
        120
    } else if op == opcodes::DESTROY_WINDOW {
        8
    } else if op == opcodes::COMMIT_BUFFER {
        24
    } else if op == opcodes::MINIMIZE_WINDOW || op == opcodes::RESTORE_WINDOW {
        8
    } else if op == opcodes::MOVE_WINDOW {
        16
    } else if op == opcodes::RESIZE_WINDOW {
        16
    } else if op == opcodes::SET_WINDOW_FLAGS {
        12
    } else if op == opcodes::REGISTER_TASKBAR {
        36
    } else if op == opcodes::WINDOW_CREATED {
        24
    } else if op == opcodes::EVENT_INPUT {
        16
    } else if op == opcodes::EVENT_RESIZE {
        12
    } else if op == opcodes::EVENT_WINDOW_LIFECYCLE {
        76
    } else if op == opcodes::ERROR {
        8
    } else {
        4
    }
}

/// True when `r` is what the frame `bytes` decodes to: a protocol error
/// when the frame is longer than a frame may be, shorter than an opcode,
/// or shorter than the record that its opcode names; else the record, read
/// field by field.
pub open spec fn is_message_of(r: SysResult<ProtocolMessage>, bytes: Seq<u8>) -> bool {
    let op = opcode_of(bytes);
    if bytes.len() > 256 || bytes.len() < 4 || bytes.len() < record_size(op) {
        r == Err::<ProtocolMessage, SysError>(SysError::ProtocolError)
    } else if op == opcodes::CREATE_WINDOW {
        r matches Ok(ProtocolMessage::CreateWindow(m)) && m.reads(bytes)
    } else if op == opcodes::DESTROY_WINDOW {
        r == Ok::<ProtocolMessage, SysError>(
            ProtocolMessage::DestroyWindow(DestroyWindowRequest::fields_of(bytes)),
        )
    } else if op == opcodes::COMMIT_BUFFER {
        r == Ok::<ProtocolMessage, SysError>(
            ProtocolMessage::CommitBuffer(CommitBufferRequest::fields_of(bytes)),
        )
    } else if op == opcodes::MINIMIZE_WINDOW || op == opcodes::RESTORE_WINDOW {
        r == Ok::<ProtocolMessage, SysError>(
            ProtocolMessage::WindowOp(WindowOpRequest::fields_of(bytes)),
        )
    } else if op == opcodes::MOVE_WINDOW {
        r == Ok::<ProtocolMessage, SysError>(
            ProtocolMessage::MoveWindow(MoveWindowRequest::fields_of(bytes)),
        )
    } else if op == opcodes::RESIZE_WINDOW {
        r == Ok::<ProtocolMessage, SysError>(
            ProtocolMessage::ResizeWindow(ResizeWindowRequest::fields_of(bytes)),
        )
    } else if op == opcodes::SET_WINDOW_FLAGS {
        r == Ok::<ProtocolMessage, SysError>(
            ProtocolMessage::SetWindowFlags(SetWindowFlagsRequest::fields_of(bytes)),
        )
    } else if op == opcodes::REGISTER_TASKBAR {
        r matches Ok(ProtocolMessage::RegisterTaskbar(m)) && m.reads(bytes)
    } else if op == opcodes::WINDOW_CREATED {
        r == Ok::<ProtocolMessage, SysError>(
            ProtocolMessage::WindowCreated(WindowCreatedResponse::fields_of(bytes)),
        )
    } else if op == opcodes::EVENT_INPUT {
        r == Ok::<ProtocolMessage, SysError>(ProtocolMessage::Input(InputEvent::fields_of(bytes)))
    } else if op == opcodes::EVENT_RESIZE {
        r == Ok::<ProtocolMessage, SysError>(
            ProtocolMessage::Resize(ResizeEvent::fields_of(bytes)),
        )
    } else if op == opcodes::EVENT_WINDOW_LIFECYCLE {
        r matches Ok(ProtocolMessage::Lifecycle(m)) && m.reads(bytes)
    } else if op == opcodes::ERROR {
        r == Ok::<ProtocolMessage, SysError>(
            ProtocolMessage::Error(ErrorResponse::fields_of(bytes)),
        )
    } else {
        r == Ok::<ProtocolMessage, SysError>(ProtocolMessage::Unknown(op as u32))
    }
}

impl ProtocolMessage {
    /// The bytes of the message.
    pub open spec fn wire(self) -> Seq<u8> {
        match self {
            ProtocolMessage::CreateWindow(m) => m.wire(),
            ProtocolMessage::DestroyWindow(m) => m.wire(),
            ProtocolMessage::CommitBuffer(m) => m.wire(),
            ProtocolMessage::WindowOp(m) => m.wire(),
            ProtocolMessage::MoveWindow(m) => m.wire(),
            ProtocolMessage::ResizeWindow(m) => m.wire(),
            ProtocolMessage::SetWindowFlags(m) => m.wire(),
            ProtocolMessage::RegisterTaskbar(m) => m.wire(),
            ProtocolMessage::WindowCreated(m) => m.wire(),
            ProtocolMessage::Input(m) => m.wire(),
            ProtocolMessage::Resize(m) => m.wire(),
            ProtocolMessage::Lifecycle(m) => m.wire(),
            ProtocolMessage::Error(m) => m.wire(),
            ProtocolMessage::Unknown(op) => crate::encoding::u32_le(op),
        }
    }

    /// The opcode that the message carries.
    pub open spec fn op(self) -> u32 {
        match self {
            ProtocolMessage::CreateWindow(m) => m.op,
            ProtocolMessage::DestroyWindow(m) => m.op,
            ProtocolMessage::CommitBuffer(m) => m.op,
            ProtocolMessage::WindowOp(m) => m.op,
            ProtocolMessage::MoveWindow(m) => m.op,
            ProtocolMessage::ResizeWindow(m) => m.op,
            ProtocolMessage::SetWindowFlags(m) => m.op,
            ProtocolMessage::RegisterTaskbar(m) => m.op,
            ProtocolMessage::WindowCreated(m) => m.op,
            ProtocolMessage::Input(m) => m.op,
            ProtocolMessage::Resize(m) => m.op,
            ProtocolMessage::Lifecycle(m) => m.op,
            ProtocolMessage::Error(m) => m.op,
            ProtocolMessage::Unknown(op) => op,
        }
    }

    /// The opcode that the message carries.
    pub fn opcode(&self) -> (op: u32)
        ensures
            op == self.op(),
    {
        match self {
            ProtocolMessage::CreateWindow(m) => m.op,
            ProtocolMessage::DestroyWindow(m) => m.op,
            ProtocolMessage::CommitBuffer(m) => m.op,
            ProtocolMessage::WindowOp(m) => m.op,
            ProtocolMessage::MoveWindow(m) => m.op,
            ProtocolMessage::ResizeWindow(m) => m.op,
            ProtocolMessage::SetWindowFlags(m) => m.op,
            ProtocolMessage::RegisterTaskbar(m) => m.op,
            ProtocolMessage::WindowCreated(m) => m.op,
            ProtocolMessage::Input(m) => m.op,
            ProtocolMessage::Resize(m) => m.op,
            ProtocolMessage::Lifecycle(m) => m.op,
            ProtocolMessage::Error(m) => m.op,
            ProtocolMessage::Unknown(op) => *op,
        }
    }

    /// Writes the message.
    pub fn encode(&self) -> (out: Vec<u8>)
        ensures
            out@ == self.wire(),
            4 <= out@.len() <= 256,
    {
        match self {
            ProtocolMessage::CreateWindow(m) => m.encode(),
            ProtocolMessage::DestroyWindow(m) => m.encode(),
            ProtocolMessage::CommitBuffer(m) => m.encode(),
            ProtocolMessage::WindowOp(m) => m.encode(),
            ProtocolMessage::MoveWindow(m) => m.encode(),
            ProtocolMessage::ResizeWindow(m) => m.encode(),
            ProtocolMessage::SetWindowFlags(m) => m.encode(),
            ProtocolMessage::RegisterTaskbar(m) => m.encode(),
            ProtocolMessage::WindowCreated(m) => m.encode(),
            ProtocolMessage::Input(m) => m.encode(),
            ProtocolMessage::Resize(m) => m.encode(),
            ProtocolMessage::Lifecycle(m) => m.encode(),
            ProtocolMessage::Error(m) => m.encode(),
            ProtocolMessage::Unknown(op) => {
                let mut out: Vec<u8> = Vec::new();
                crate::encoding::push_u32(&mut out, *op);
                out
            },
        }
    }

    /// Decodes a frame: length first, then the opcode, then the record that
    /// the opcode names.
    pub fn decode(bytes: &[u8]) -> (r: SysResult<ProtocolMessage>)
        ensures
            is_message_of(r, bytes@),
    {
        if bytes.len() > 256 {
            return Err(SysError::ProtocolError);
        }
        let op: u32 = match read_opcode(bytes) {
            Some(op) => op,
            None => {
                return Err(SysError::ProtocolError);
            },
        };
        if op == opcodes::CREATE_WINDOW {
            match CreateWindowRequest::decode(bytes) {
                Ok(m) => Ok(ProtocolMessage::CreateWindow(m)),
                Err(e) => Err(e),
            }
        } else if op == opcodes::DESTROY_WINDOW {
            match DestroyWindowRequest::decode(bytes) {
                Ok(m) => Ok(ProtocolMessage::DestroyWindow(m)),
                Err(e) => Err(e),
            }
        } else if op == opcodes::COMMIT_BUFFER {
            match CommitBufferRequest::decode(bytes) {
                Ok(m) => Ok(ProtocolMessage::CommitBuffer(m)),
                Err(e) => Err(e),
            }
        } else if op == opcodes::MINIMIZE_WINDOW || op == opcodes::RESTORE_WINDOW {
            match WindowOpRequest::decode(bytes) {
                Ok(m) => Ok(ProtocolMessage::WindowOp(m)),
                Err(e) => Err(e),
            }
        } else if op == opcodes::MOVE_WINDOW {
            match MoveWindowRequest::decode(bytes) {
                Ok(m) => Ok(ProtocolMessage::MoveWindow(m)),
                Err(e) => Err(e),
            }
        } else if op == opcodes::RESIZE_WINDOW {
            match ResizeWindowRequest::decode(bytes) {
                Ok(m) => Ok(ProtocolMessage::ResizeWindow(m)),
                Err(e) => Err(e),
            }
        } else if op == opcodes::SET_WINDOW_FLAGS {
            match SetWindowFlagsRequest::decode(bytes) {
                Ok(m) => Ok(ProtocolMessage::SetWindowFlags(m)),
                Err(e) => Err(e),
            }
        } else if op == opcodes::REGISTER_TASKBAR {
            match RegisterTaskbarRequest::decode(bytes) {
                Ok(m) => Ok(ProtocolMessage::RegisterTaskbar(m)),
                Err(e) => Err(e),
            }
        } else if op == opcodes::WINDOW_CREATED {
            match WindowCreatedResponse::decode(bytes) {
                Ok(m) => Ok(ProtocolMessage::WindowCreated(m)),
                Err(e) => Err(e),
            }
        } else if op == opcodes::EVENT_INPUT {
            match InputEvent::decode(bytes) {
                Ok(m) => Ok(ProtocolMessage::Input(m)),
                Err(e) => Err(e),
            }
        } else if op == opcodes::EVENT_RESIZE {
            match ResizeEvent::decode(bytes) {
                Ok(m) => Ok(ProtocolMessage::Resize(m)),
                Err(e) => Err(e),
            }
        } else if op == opcodes::EVENT_WINDOW_LIFECYCLE {
            match WindowLifecycleEvent::decode(bytes) {
                Ok(m) => Ok(ProtocolMessage::Lifecycle(m)),
                Err(e) => Err(e),
            }
        } else if op == opcodes::ERROR {
            match ErrorResponse::decode(bytes) {
                Ok(m) => Ok(ProtocolMessage::Error(m)),
                Err(e) => Err(e),
            }
        } else {
            Ok(ProtocolMessage::Unknown(op))
        }
    }
}

} // verus!
