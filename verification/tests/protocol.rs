use redpowder::event::{InputEvent, ResizeEvent};
use redpowder::syscall::error::SysError;
use redpowder::window::message::ProtocolMessage;
use redpowder::window::{client_msg, compositor_msg};
use redpowder::window::protocol::{
    read_opcode, BufferReadyRequest, CommitBufferRequest, CreateWindowRequest, DestroyWindowRequest, ErrorResponse,
    MoveWindowRequest, RegisterTaskbarRequest, ResizeWindowRequest, SetWindowFlagsRequest,
    WindowCreatedResponse, WindowLifecycleEvent, WindowOpRequest, COMPOSITOR_PORT, MAX_MSG_SIZE,
};

fn field<const N: usize>(text: &[u8]) -> [u8; N] {
    let mut out = [0u8; N];
    out[..text.len()].copy_from_slice(text);
    out
}

#[test]
fn constants_of_the_protocol() {
    assert_eq!(COMPOSITOR_PORT, "firefly.compositor");
    assert_eq!(MAX_MSG_SIZE, 256);
    assert_eq!(CreateWindowRequest::SIZE, 120);
    assert_eq!(RegisterTaskbarRequest::SIZE, 36);
    assert_eq!(DestroyWindowRequest::SIZE, 8);
    assert_eq!(CommitBufferRequest::SIZE, 24);
    assert_eq!(WindowOpRequest::SIZE, 8);
    assert_eq!(MoveWindowRequest::SIZE, 16);
    assert_eq!(ResizeWindowRequest::SIZE, 16);
    assert_eq!(SetWindowFlagsRequest::SIZE, 12);
    assert_eq!(WindowCreatedResponse::SIZE, 24);
    assert_eq!(ErrorResponse::SIZE, 8);
    assert_eq!(WindowLifecycleEvent::SIZE, 76);
    assert_eq!(InputEvent::SIZE, 16);
    assert_eq!(ResizeEvent::SIZE, 12);
}

#[test]
fn commit_request_has_its_exact_bytes() {
    let request = CommitBufferRequest {
        op: 0x03,
        window_id: 7,
        x: 0x0102_0304,
        y: 2,
        width: 800,
        height: 600,
    };
    assert_eq!(
        request.encode(),
        vec![
            0x03, 0, 0, 0, // opcode
            7, 0, 0, 0, // window
            0x04, 0x03, 0x02, 0x01, // x, low byte first
            2, 0, 0, 0, // y
            0x20, 0x03, 0, 0, // 800
            0x58, 0x02, 0, 0, // 600
        ]
    );
}

#[test]
fn commit_request_round_trips() {
    for request in [
        CommitBufferRequest { op: 3, window_id: 7, x: 0, y: 0, width: 800, height: 600 },
        CommitBufferRequest { op: 3, window_id: 0, x: 0, y: 0, width: 0, height: 0 },
        CommitBufferRequest {
            op: 3,
            window_id: u32::MAX,
            x: u32::MAX,
            y: 0x8000_0000,
            width: 0x1234_5678,
            height: 0xFFFF_0000,
        },
    ] {
        let frame = request.encode();
        assert_eq!(frame.len(), 24);
        assert_eq!(CommitBufferRequest::decode(&frame), Ok(request));
        assert_eq!(ProtocolMessage::decode(&frame), Ok(ProtocolMessage::CommitBuffer(request)));
    }
}

#[test]
fn created_response_has_its_exact_bytes() {
    let response = WindowCreatedResponse {
        op: 0x10,
        window_id: 7,
        shm_handle: 42,
        buffer_size: 1_920_000,
    };
    assert_eq!(
        response.encode(),
        vec![
            0x10, 0, 0, 0, 7, 0, 0, 0, 42, 0, 0, 0, 0, 0, 0, 0, 0x00, 0x4C, 0x1D, 0, 0, 0, 0, 0
        ]
    );
}

#[test]
fn created_response_round_trips_with_wide_fields() {
    let response = WindowCreatedResponse {
        op: 0x10,
        window_id: 9,
        shm_handle: 0x0102_0304_0506_0708,
        buffer_size: u64::MAX,
    };
    assert_eq!(WindowCreatedResponse::decode(&response.encode()), Ok(response));
}

#[test]
fn created_response_that_is_short_is_refused() {
    let frame = WindowCreatedResponse { op: 0x10, window_id: 7, shm_handle: 42, buffer_size: 8 }
        .encode();
    for len in 0..24 {
        assert_eq!(WindowCreatedResponse::decode(&frame[..len]), Err(SysError::ProtocolError));
        assert_eq!(ProtocolMessage::decode(&frame[..len]), Err(SysError::ProtocolError));
    }
    assert!(WindowCreatedResponse::decode(&frame).is_ok());
}

#[test]
fn created_response_with_another_opcode_is_refused() {
    let mut frame =
        WindowCreatedResponse { op: 0x10, window_id: 7, shm_handle: 42, buffer_size: 8 }.encode();
    frame[0] = 0x11;
    assert_eq!(WindowCreatedResponse::decode(&frame), Err(SysError::ProtocolError));
    frame[0] = 0x10;
    frame[3] = 1;
    assert_eq!(WindowCreatedResponse::decode(&frame), Err(SysError::ProtocolError));
}

#[test]
fn longer_frame_is_read_by_its_head() {
    let mut frame =
        WindowCreatedResponse { op: 0x10, window_id: 7, shm_handle: 42, buffer_size: 8 }.encode();
    frame.resize(256, 0xEE);
    assert_eq!(
        WindowCreatedResponse::decode(&frame),
        Ok(WindowCreatedResponse { op: 0x10, window_id: 7, shm_handle: 42, buffer_size: 8 })
    );
}

#[test]
fn create_request_round_trips() {
    let request = CreateWindowRequest {
        op: 0x01,
        x: 1,
        y: 2,
        width: 3,
        height: 4,
        flags: 5,
        reply_port: field::<32>(b"win.r.17"),
        title: field::<64>(b"Terminal"),
    };
    let frame = request.encode();
    assert_eq!(frame.len(), 120);
    assert_eq!(&frame[24..32], b"win.r.17");
    assert_eq!(frame[32], 0);
    assert_eq!(&frame[56..64], b"Terminal");
    assert_eq!(CreateWindowRequest::decode(&frame), Ok(request));
    assert_eq!(ProtocolMessage::decode(&frame), Ok(ProtocolMessage::CreateWindow(request)));
    assert_eq!(CreateWindowRequest::decode(&frame[..119]), Err(SysError::ProtocolError));
}

#[test]
fn move_request_carries_negative_coordinates() {
    let request = MoveWindowRequest { op: 0x09, window_id: 3, x: -1, y: i32::MIN };
    let frame = request.encode();
    assert_eq!(&frame[8..12], &[0xFF, 0xFF, 0xFF, 0xFF]);
    assert_eq!(&frame[12..16], &[0, 0, 0, 0x80]);
    assert_eq!(MoveWindowRequest::decode(&frame), Ok(request));
    let other = MoveWindowRequest { op: 0x09, window_id: 3, x: i32::MAX, y: 12 };
    assert_eq!(MoveWindowRequest::decode(&other.encode()), Ok(other));
}

#[test]
fn small_requests_round_trip() {
    let destroy = DestroyWindowRequest { op: 0x02, window_id: 11 };
    assert_eq!(destroy.encode(), vec![2, 0, 0, 0, 11, 0, 0, 0]);
    assert_eq!(DestroyWindowRequest::decode(&destroy.encode()), Ok(destroy));

    let minimize = WindowOpRequest { op: 0x05, window_id: 11 };
    assert_eq!(WindowOpRequest::decode(&minimize.encode()), Ok(minimize));
    let restore = WindowOpRequest { op: 0x06, window_id: 11 };
    assert_eq!(WindowOpRequest::decode(&restore.encode()), Ok(restore));
    let neither = WindowOpRequest { op: 0x07, window_id: 11 };
    assert_eq!(WindowOpRequest::decode(&neither.encode()), Err(SysError::ProtocolError));

    let resize = ResizeWindowRequest { op: 0x0A, window_id: 1, width: 640, height: 480 };
    assert_eq!(ResizeWindowRequest::decode(&resize.encode()), Ok(resize));

    let flags = SetWindowFlagsRequest { op: 0x08, window_id: 1, flags: 0x8003 };
    assert_eq!(flags.encode().len(), 12);
    assert_eq!(SetWindowFlagsRequest::decode(&flags.encode()), Ok(flags));

    let error = ErrorResponse { op: 0xFF, code: 22 };
    assert_eq!(ErrorResponse::decode(&error.encode()), Ok(error));

    let taskbar = RegisterTaskbarRequest { op: 0x07, listener_port: field::<32>(b"taskbar") };
    assert_eq!(taskbar.encode().len(), 36);
    assert_eq!(RegisterTaskbarRequest::decode(&taskbar.encode()), Ok(taskbar));

    let lifecycle = WindowLifecycleEvent {
        op: 0x22,
        event_type: 2,
        window_id: 5,
        title: field::<64>(b"Editor"),
    };
    assert_eq!(lifecycle.encode().len(), 76);
    assert_eq!(WindowLifecycleEvent::decode(&lifecycle.encode()), Ok(lifecycle));
}

#[test]
fn every_message_decodes_to_itself() {
    let messages = [
        ProtocolMessage::CreateWindow(CreateWindowRequest {
            op: 0x01,
            x: 1,
            y: 2,
            width: 3,
            height: 4,
            flags: 5,
            reply_port: field::<32>(b"win.r.0"),
            title: field::<64>(b"t"),
        }),
        ProtocolMessage::DestroyWindow(DestroyWindowRequest { op: 0x02, window_id: 1 }),
        ProtocolMessage::CommitBuffer(CommitBufferRequest {
            op: 0x03,
            window_id: 1,
            x: 2,
            y: 3,
            width: 4,
            height: 5,
        }),
        ProtocolMessage::WindowOp(WindowOpRequest { op: 0x05, window_id: 1 }),
        ProtocolMessage::WindowOp(WindowOpRequest { op: 0x06, window_id: 1 }),
        ProtocolMessage::MoveWindow(MoveWindowRequest { op: 0x09, window_id: 1, x: -5, y: 5 }),
        ProtocolMessage::ResizeWindow(ResizeWindowRequest {
            op: 0x0A,
            window_id: 1,
            width: 2,
            height: 3,
        }),
        ProtocolMessage::SetWindowFlags(SetWindowFlagsRequest {
            op: 0x08,
            window_id: 1,
            flags: 2,
        }),
        ProtocolMessage::RegisterTaskbar(RegisterTaskbarRequest {
            op: 0x07,
            listener_port: field::<32>(b"bar"),
        }),
        ProtocolMessage::WindowCreated(WindowCreatedResponse {
            op: 0x10,
            window_id: 1,
            shm_handle: 2,
            buffer_size: 3,
        }),
        ProtocolMessage::Input(InputEvent { op: 0x20, event_type: 1, param1: 65, param2: 0 }),
        ProtocolMessage::Resize(ResizeEvent { op: 0x21, width: 10, height: 20 }),
        ProtocolMessage::Lifecycle(WindowLifecycleEvent {
            op: 0x22,
            event_type: 1,
            window_id: 2,
            title: field::<64>(b"gone"),
        }),
        ProtocolMessage::Error(ErrorResponse { op: 0xFF, code: 7 }),
        ProtocolMessage::Unknown(0x04),
        ProtocolMessage::Unknown(0x23),
        ProtocolMessage::Unknown(0xDEAD_BEEF),
    ];
    for message in messages {
        let frame = message.encode();
        assert!(frame.len() >= 4 && frame.len() <= MAX_MSG_SIZE);
        assert_eq!(read_opcode(&frame), Some(message.opcode()));
        assert_eq!(ProtocolMessage::decode(&frame), Ok(message));
    }
}

#[test]
fn unknown_opcode_is_kept() {
    let mut frame = vec![0x77, 0x66, 0x55, 0x44];
    assert_eq!(ProtocolMessage::decode(&frame), Ok(ProtocolMessage::Unknown(0x4455_6677)));
    frame.extend_from_slice(&[1, 2, 3]);
    assert_eq!(ProtocolMessage::decode(&frame), Ok(ProtocolMessage::Unknown(0x4455_6677)));
}

#[test]
fn frames_without_an_opcode_or_too_long_are_refused() {
    assert_eq!(read_opcode(&[]), None);
    assert_eq!(read_opcode(&[1, 2, 3]), None);
    assert_eq!(read_opcode(&[1, 2, 3, 4]), Some(0x0403_0201));
    for len in 0..4 {
        assert_eq!(ProtocolMessage::decode(&vec![0u8; len]), Err(SysError::ProtocolError));
    }
    let mut frame = DestroyWindowRequest { op: 0x02, window_id: 1 }.encode();
    frame.resize(256, 0);
    assert!(ProtocolMessage::decode(&frame).is_ok());
    frame.push(0);
    assert_eq!(ProtocolMessage::decode(&frame), Err(SysError::ProtocolError));
}

#[test]
fn buffer_ready_request_round_trips() {
    assert_eq!(BufferReadyRequest::SIZE, 8);
    let request = BufferReadyRequest { msg_id: 2, window_id: 0x0102_0304 };
    assert_eq!(request.encode(), vec![2, 0, 0, 0, 4, 3, 2, 1]);
    assert_eq!(BufferReadyRequest::decode(&request.encode()), Ok(request));
    assert_eq!(BufferReadyRequest::decode(&request.encode()[..7]), Err(SysError::ProtocolError));
    let other = BufferReadyRequest { msg_id: 3, window_id: 1 };
    assert_eq!(BufferReadyRequest::decode(&other.encode()), Err(SysError::ProtocolError));
}

#[test]
fn identifiers_of_version_1() {
    assert_eq!(
        (client_msg::CREATE_WINDOW, client_msg::BUFFER_READY, client_msg::CLOSE_WINDOW),
        (1, 2, 3)
    );
    assert_eq!((compositor_msg::WINDOW_CREATED, compositor_msg::ERROR), (100, 101));
}
