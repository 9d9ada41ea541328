//! What holds of every message: what is written is what is read back.

use vstd::prelude::*;

use crate::encoding::{
    i32_bits, lemma_i32_bits_round_trip, lemma_u32_round_trip, lemma_u64_round_trip, u32_le,
    u64_le,
};
use crate::event::{InputEvent, ResizeEvent};
use crate::syscall::error::SysError;
use crate::window::message::{is_message_of, record_size, ProtocolMessage};
use crate::window::opcodes;
use crate::window::protocol::{
    opcode_of, BufferReadyRequest, CommitBufferRequest, CreateWindowRequest, DestroyWindowRequest, ErrorResponse,
    MoveWindowRequest, RegisterTaskbarRequest, ResizeWindowRequest, SetWindowFlagsRequest,
    WindowCreatedResponse, WindowLifecycleEvent, WindowOpRequest,
};

verus! {

/// The bytes of two numbers are read back as the two numbers.
proof fn lemma_two(a: u32, b: u32)
    ensures
        (u32_le(a) + u32_le(b)).len() == 8,
        crate::encoding::le_u32(u32_le(a) + u32_le(b), 0) == a,
        crate::encoding::le_u32(u32_le(a) + u32_le(b), 4) == b,
{
    let e = Seq::<u8>::empty();
    let w = u32_le(a) + u32_le(b);
    lemma_u32_round_trip(e, a, u32_le(b));
    lemma_u32_round_trip(u32_le(a), b, e);
    assert(w =~= e + u32_le(a) + u32_le(b));
    assert(w =~= u32_le(a) + u32_le(b) + e);
}

/// The bytes of three numbers are read back as the three numbers.
proof fn lemma_three(a: u32, b: u32, c: u32)
    ensures
        (u32_le(a) + u32_le(b) + u32_le(c)).len() == 12,
        crate::encoding::le_u32(u32_le(a) + u32_le(b) + u32_le(c), 0) == a,
        crate::encoding::le_u32(u32_le(a) + u32_le(b) + u32_le(c), 4) == b,
        crate::encoding::le_u32(u32_le(a) + u32_le(b) + u32_le(c), 8) == c,
{
    let e = Seq::<u8>::empty();
    let w = u32_le(a) + u32_le(b) + u32_le(c);
    lemma_u32_round_trip(e, a, u32_le(b) + u32_le(c));
    lemma_u32_round_trip(u32_le(a), b, u32_le(c));
    lemma_u32_round_trip(u32_le(a) + u32_le(b), c, e);
    assert(w =~= e + u32_le(a) + (u32_le(b) + u32_le(c)));
    assert(w =~= u32_le(a) + u32_le(b) + u32_le(c) + e);
}

/// The bytes of four numbers are read back as the four numbers.
proof fn lemma_four(a: u32, b: u32, c: u32, d: u32)
    ensures
        (u32_le(a) + u32_le(b) + u32_le(c) + u32_le(d)).len() == 16,
        crate::encoding::le_u32(u32_le(a) + u32_le(b) + u32_le(c) + u32_le(d), 0) == a,
        crate::encoding::le_u32(u32_le(a) + u32_le(b) + u32_le(c) + u32_le(d), 4) == b,
        crate::encoding::le_u32(u32_le(a) + u32_le(b) + u32_le(c) + u32_le(d), 8) == c,
        crate::encoding::le_u32(u32_le(a) + u32_le(b) + u32_le(c) + u32_le(d), 12) == d,
{
    let e = Seq::<u8>::empty();
    let w = u32_le(a) + u32_le(b) + u32_le(c) + u32_le(d);
    lemma_u32_round_trip(e, a, u32_le(b) + u32_le(c) + u32_le(d));
    lemma_u32_round_trip(u32_le(a), b, u32_le(c) + u32_le(d));
    lemma_u32_round_trip(u32_le(a) + u32_le(b), c, u32_le(d));
    lemma_u32_round_trip(u32_le(a) + u32_le(b) + u32_le(c), d, e);
    assert(w =~= e + u32_le(a) + (u32_le(b) + u32_le(c) + u32_le(d)));
    assert(w =~= u32_le(a) + u32_le(b) + (u32_le(c) + u32_le(d)));
    assert(w =~= u32_le(a) + u32_le(b) + u32_le(c) + u32_le(d) + e);
}

/// A commit request is read back from its own bytes field for field, and
/// its bytes are as many as the record has.
pub proof fn lemma_commit_round_trip(m: CommitBufferRequest)
    ensures
        m.wire().len() == 24,
        opcode_of(m.wire()) == m.op,
        CommitBufferRequest::fields_of(m.wire()) == m,
{
    let e = Seq::<u8>::empty();
    let f0 = u32_le(m.op);
    let f1 = u32_le(m.window_id);
    let f2 = u32_le(m.x);
    let f3 = u32_le(m.y);
    let f4 = u32_le(m.width);
    let f5 = u32_le(m.height);
    let w = m.wire();
    assert(w.len() == 24);
    assert(crate::encoding::le_u32(w, 0) == m.op) by {
        lemma_u32_round_trip(e, m.op, f1 + f2 + f3 + f4 + f5);
        assert(w =~= e + f0 + (f1 + f2 + f3 + f4 + f5));
    }
    assert(crate::encoding::le_u32(w, 4) == m.window_id) by {
        lemma_u32_round_trip(f0, m.window_id, f2 + f3 + f4 + f5);
        assert(w =~= f0 + f1 + (f2 + f3 + f4 + f5));
    }
    assert(crate::encoding::le_u32(w, 8) == m.x) by {
        lemma_u32_round_trip(f0 + f1, m.x, f3 + f4 + f5);
        assert(w =~= f0 + f1 + f2 + (f3 + f4 + f5));
    }
    assert(crate::encoding::le_u32(w, 12) == m.y) by {
        lemma_u32_round_trip(f0 + f1 + f2, m.y, f4 + f5);
        assert(w =~= f0 + f1 + f2 + f3 + (f4 + f5));
    }
    assert(crate::encoding::le_u32(w, 16) == m.width) by {
        lemma_u32_round_trip(f0 + f1 + f2 + f3, m.width, f5);
        assert(w =~= f0 + f1 + f2 + f3 + f4 + (f5 + e));
        assert(f5 + e =~= f5);
    }
    assert(crate::encoding::le_u32(w, 20) == m.height) by {
        lemma_u32_round_trip(f0 + f1 + f2 + f3 + f4, m.height, e);
        assert(w =~= f0 + f1 + f2 + f3 + f4 + f5 + e);
    }
}

/// A destroy request is read back from its own bytes.
pub proof fn lemma_destroy_round_trip(m: DestroyWindowRequest)
    ensures
        m.wire().len() == 8,
        opcode_of(m.wire()) == m.op,
        DestroyWindowRequest::fields_of(m.wire()) == m,
{
    lemma_two(m.op, m.window_id);
}

/// A buffer-ready request is read back from its own bytes.
pub proof fn lemma_buffer_ready_round_trip(m: BufferReadyRequest)
    ensures
        m.wire().len() == 8,
        opcode_of(m.wire()) == m.msg_id,
        BufferReadyRequest::fields_of(m.wire()) == m,
{
    lemma_two(m.msg_id, m.window_id);
}

/// A minimize or restore request is read back from its own bytes.
pub proof fn lemma_window_op_round_trip(m: WindowOpRequest)
    ensures
        m.wire().len() == 8,
        opcode_of(m.wire()) == m.op,
        WindowOpRequest::fields_of(m.wire()) == m,
{
    lemma_two(m.op, m.window_id);
}

/// A move request is read back from its own bytes, negative coordinates
/// included.
pub proof fn lemma_move_round_trip(m: MoveWindowRequest)
    ensures
        m.wire().len() == 16,
        opcode_of(m.wire()) == m.op,
        MoveWindowRequest::fields_of(m.wire()) == m,
{
    lemma_four(m.op, m.window_id, i32_bits(m.x), i32_bits(m.y));
    lemma_i32_bits_round_trip(m.x, 0);
    lemma_i32_bits_round_trip(m.y, 0);
}

/// A resize request is read back from its own bytes.
pub proof fn lemma_resize_round_trip(m: ResizeWindowRequest)
    ensures
        m.wire().len() == 16,
        opcode_of(m.wire()) == m.op,
        ResizeWindowRequest::fields_of(m.wire()) == m,
{
    lemma_four(m.op, m.window_id, m.width, m.height);
}

/// A request to set flags is read back from its own bytes.
pub proof fn lemma_set_flags_round_trip(m: SetWindowFlagsRequest)
    ensures
        m.wire().len() == 12,
        opcode_of(m.wire()) == m.op,
        SetWindowFlagsRequest::fields_of(m.wire()) == m,
{
    lemma_three(m.op, m.window_id, m.flags);
}

/// An error response is read back from its own bytes.
pub proof fn lemma_error_round_trip(m: ErrorResponse)
    ensures
        m.wire().len() == 8,
        opcode_of(m.wire()) == m.op,
        ErrorResponse::fields_of(m.wire()) == m,
{
    lemma_two(m.op, m.code);
}

/// An input event is read back from its own bytes.
pub proof fn lemma_input_round_trip(m: InputEvent)
    ensures
        m.wire().len() == 16,
        opcode_of(m.wire()) == m.op,
        InputEvent::fields_of(m.wire()) == m,
{
    lemma_four(m.op, m.event_type, m.param1, m.param2);
}

/// A resize event is read back from its own bytes.
pub proof fn lemma_resize_event_round_trip(m: ResizeEvent)
    ensures
        m.wire().len() == 12,
        opcode_of(m.wire()) == m.op,
        ResizeEvent::fields_of(m.wire()) == m,
{
    lemma_three(m.op, m.width, m.height);
}

/// The answer to a create request is read back from its own bytes.
pub proof fn lemma_created_round_trip(m: WindowCreatedResponse)
    ensures
        m.wire().len() == 24,
        opcode_of(m.wire()) == m.op,
        WindowCreatedResponse::fields_of(m.wire()) == m,
{
    let e = Seq::<u8>::empty();
    let f0 = u32_le(m.op);
    let f1 = u32_le(m.window_id);
    let f2 = u64_le(m.shm_handle);
    let f3 = u64_le(m.buffer_size);
    let w = m.wire();
    assert(w.len() == 24);
    assert(crate::encoding::le_u32(w, 0) == m.op) by {
        lemma_u32_round_trip(e, m.op, f1 + f2 + f3);
        assert(w =~= e + f0 + (f1 + f2 + f3));
    }
    assert(crate::encoding::le_u32(w, 4) == m.window_id) by {
        lemma_u32_round_trip(f0, m.window_id, f2 + f3);
        assert(w =~= f0 + f1 + (f2 + f3));
    }
    assert(crate::encoding::le_u64(w, 8) == m.shm_handle) by {
        lemma_u64_round_trip(f0 + f1, m.shm_handle, f3);
        assert(w =~= f0 + f1 + f2 + f3);
    }
    assert(crate::encoding::le_u64(w, 16) == m.buffer_size) by {
        lemma_u64_round_trip(f0 + f1 + f2, m.buffer_size, e);
        assert(w =~= f0 + f1 + f2 + f3 + e);
    }
}

/// A create request is read back from its own bytes, the two text fields
/// included.
pub proof fn lemma_create_round_trip(m: CreateWindowRequest)
    ensures
        m.wire().len() == 120,
        opcode_of(m.wire()) == m.op,
        m.reads(m.wire()),
{
    let e = Seq::<u8>::empty();
    let f0 = u32_le(m.op);
    let f1 = u32_le(m.x);
    let f2 = u32_le(m.y);
    let f3 = u32_le(m.width);
    let f4 = u32_le(m.height);
    let f5 = u32_le(m.flags);
    let t = m.reply_port@ + m.title@;
    let w = m.wire();
    assert(w.len() == 120);
    assert(crate::encoding::le_u32(w, 0) == m.op) by {
        lemma_u32_round_trip(e, m.op, f1 + f2 + f3 + f4 + f5 + t);
        assert(w =~= e + f0 + (f1 + f2 + f3 + f4 + f5 + t));
    }
    assert(crate::encoding::le_u32(w, 4) == m.x) by {
        lemma_u32_round_trip(f0, m.x, f2 + f3 + f4 + f5 + t);
        assert(w =~= f0 + f1 + (f2 + f3 + f4 + f5 + t));
    }
    assert(crate::encoding::le_u32(w, 8) == m.y) by {
        lemma_u32_round_trip(f0 + f1, m.y, f3 + f4 + f5 + t);
        assert(w =~= f0 + f1 + f2 + (f3 + f4 + f5 + t));
    }
    assert(crate::encoding::le_u32(w, 12) == m.width) by {
        lemma_u32_round_trip(f0 + f1 + f2, m.width, f4 + f5 + t);
        assert(w =~= f0 + f1 + f2 + f3 + (f4 + f5 + t));
    }
    assert(crate::encoding::le_u32(w, 16) == m.height) by {
        lemma_u32_round_trip(f0 + f1 + f2 + f3, m.height, f5 + t);
        assert(w =~= f0 + f1 + f2 + f3 + f4 + (f5 + t));
    }
    assert(crate::encoding::le_u32(w, 20) == m.flags) by {
        lemma_u32_round_trip(f0 + f1 + f2 + f3 + f4, m.flags, t);
        assert(w =~= f0 + f1 + f2 + f3 + f4 + f5 + t);
    }
    assert(w.subrange(24, 56) =~= m.reply_port@);
    assert(w.subrange(56, 120) =~= m.title@);
}

/// A request to register the task bar is read back from its own bytes.
pub proof fn lemma_register_round_trip(m: RegisterTaskbarRequest)
    ensures
        m.wire().len() == 36,
        opcode_of(m.wire()) == m.op,
        m.reads(m.wire()),
{
    let e = Seq::<u8>::empty();
    let w = m.wire();
    lemma_u32_round_trip(e, m.op, m.listener_port@);
    assert(w =~= e + u32_le(m.op) + m.listener_port@);
    assert(w.subrange(4, 36) =~= m.listener_port@);
}

/// A lifecycle event is read back from its own bytes.
pub proof fn lemma_lifecycle_round_trip(m: WindowLifecycleEvent)
    ensures
        m.wire().len() == 76,
        opcode_of(m.wire()) == m.op,
        m.reads(m.wire()),
{
    let e = Seq::<u8>::empty();
    let f0 = u32_le(m.op);
    let f1 = u32_le(m.event_type);
    let f2 = u32_le(m.window_id);
    let t = m.title@;
    let w = m.wire();
    assert(w.len() == 76);
    assert(crate::encoding::le_u32(w, 0) == m.op) by {
        lemma_u32_round_trip(e, m.op, f1 + f2 + t);
        assert(w =~= e + f0 + (f1 + f2 + t));
    }
    assert(crate::encoding::le_u32(w, 4) == m.event_type) by {
        lemma_u32_round_trip(f0, m.event_type, f2 + t);
        assert(w =~= f0 + f1 + (f2 + t));
    }
    assert(crate::encoding::le_u32(w, 8) == m.window_id) by {
        lemma_u32_round_trip(f0 + f1, m.window_id, t);
        assert(w =~= f0 + f1 + f2 + t);
    }
    assert(w.subrange(12, 76) =~= m.title@);
}

/// True when a message carries the opcode of its own kind; a message of
/// unknown kind carries an opcode that names no record.
pub open spec fn well_tagged(m: ProtocolMessage) -> bool {
    match m {
        ProtocolMessage::CreateWindow(r) => r.op == opcodes::CREATE_WINDOW,
        ProtocolMessage::DestroyWindow(r) => r.op == opcodes::DESTROY_WINDOW,
        ProtocolMessage::CommitBuffer(r) => r.op == opcodes::COMMIT_BUFFER,
        ProtocolMessage::WindowOp(r) => r.op == opcodes::MINIMIZE_WINDOW || r.op
            == opcodes::RESTORE_WINDOW,
        ProtocolMessage::MoveWindow(r) => r.op == opcodes::MOVE_WINDOW,
        ProtocolMessage::ResizeWindow(r) => r.op == opcodes::RESIZE_WINDOW,
        ProtocolMessage::SetWindowFlags(r) => r.op == opcodes::SET_WINDOW_FLAGS,
        ProtocolMessage::RegisterTaskbar(r) => r.op == opcodes::REGISTER_TASKBAR,
        ProtocolMessage::WindowCreated(r) => r.op == opcodes::WINDOW_CREATED,
        ProtocolMessage::Input(r) => r.op == opcodes::EVENT_INPUT,
        ProtocolMessage::Resize(r) => r.op == opcodes::EVENT_RESIZE,
        ProtocolMessage::Lifecycle(r) => r.op == opcodes::EVENT_WINDOW_LIFECYCLE,
        ProtocolMessage::Error(r) => r.op == opcodes::ERROR,
        ProtocolMessage::Unknown(op) => record_size(op as int) == 4,
    }
}

/// Every message that carries the opcode of its kind decodes, from the
/// bytes that it encodes to, to itself.
pub proof fn lemma_message_round_trip(m: ProtocolMessage)
    requires
        well_tagged(m),
    ensures
        is_message_of(Ok(m), m.wire()),
        4 <= m.wire().len() <= 256,
{
    match m {
        ProtocolMessage::CreateWindow(r) => {
            lemma_create_round_trip(r);
        },
        ProtocolMessage::DestroyWindow(r) => {
            lemma_destroy_round_trip(r);
        },
        ProtocolMessage::CommitBuffer(r) => {
            lemma_commit_round_trip(r);
        },
        ProtocolMessage::WindowOp(r) => {
            lemma_window_op_round_trip(r);
        },
        ProtocolMessage::MoveWindow(r) => {
            lemma_move_round_trip(r);
        },
        ProtocolMessage::ResizeWindow(r) => {
            lemma_resize_round_trip(r);
        },
        ProtocolMessage::SetWindowFlags(r) => {
            lemma_set_flags_round_trip(r);
        },
        ProtocolMessage::RegisterTaskbar(r) => {
            lemma_register_round_trip(r);
        },
        ProtocolMessage::WindowCreated(r) => {
            lemma_created_round_trip(r);
        },
        ProtocolMessage::Input(r) => {
            lemma_input_round_trip(r);
        },
        ProtocolMessage::Resize(r) => {
            lemma_resize_event_round_trip(r);
        },
        ProtocolMessage::Lifecycle(r) => {
            lemma_lifecycle_round_trip(r);
        },
        ProtocolMessage::Error(r) => {
            lemma_error_round_trip(r);
        },
        ProtocolMessage::Unknown(op) => {
            lemma_u32_round_trip(Seq::<u8>::empty(), op, Seq::<u8>::empty());
            assert(m.wire() =~= Seq::<u8>::empty() + u32_le(op) + Seq::<u8>::empty());
        },
    }
}

/// A frame that is cut short is never read: whatever opcode it carries,
/// fewer bytes than the record of that opcode make a protocol error.
pub proof fn lemma_short_frame_refused(bytes: Seq<u8>, r: Result<ProtocolMessage, SysError>)
    requires
        is_message_of(r, bytes),
        bytes.len() < record_size(opcode_of(bytes)),
    ensures
        r == Err::<ProtocolMessage, SysError>(SysError::ProtocolError),
{
}

} // verus!
