use redpowder::event::{event_type, events, poll, Event, InputEvent, PollFd, ResizeEvent};
use redpowder::io::Handle;
use redpowder::syscall::error::SysError;
use redpowder::window::client::{Action, Outcome, Window};
use redpowder::window::protocol::{WindowCreatedResponse, WindowLifecycleEvent};

fn window() -> Window {
    let mut hs = Window::create(0, 0, 4, 3, "w");
    hs.step(3, &[]);
    hs.step(4, &[]);
    hs.step(120, &[]);
    let answer = WindowCreatedResponse { op: 0x10, window_id: 9, shm_handle: 1, buffer_size: 48 }
        .encode();
    hs.step(24, &answer);
    hs.step(48, &[]);
    hs.step(0x1000, &[]);
    assert_eq!(hs.next(), Action::Finish);
    match hs.finish() {
        Outcome::Ready(window) => window,
        other => panic!("unexpected {:?}", other),
    }
}

fn buffer(frame: &[u8]) -> Vec<u8> {
    let mut out = frame.to_vec();
    out.resize(256, 0);
    out
}

#[test]
fn poll_with_nothing_queued_ends_at_once() {
    let w = window();
    assert!(w.poll_events(0, &[0u8; 256]).is_none());
    assert!(w.poll_events(0, &[]).is_none());
    let stale = InputEvent { op: 0x20, event_type: 1, param1: 2, param2: 3 }.encode();
    assert!(w.poll_events(0, &buffer(&stale)).is_none());
}

#[test]
fn poll_ends_on_a_failed_receive() {
    let w = window();
    assert!(w.poll_events(-9, &[0u8; 256]).is_none());
    assert!(w.poll_events(-4, &[0u8; 256]).is_none());
}

#[test]
fn poll_decodes_each_kind_of_event() {
    let w = window();
    let input = InputEvent { op: 0x20, event_type: event_type::KEY_DOWN, param1: 65, param2: 1 };
    match w.poll_events(16, &buffer(&input.encode())) {
        Some(Ok(Event::Input(e))) => assert_eq!(e, input),
        other => panic!("unexpected {:?}", other),
    }
    let resize = ResizeEvent { op: 0x21, width: 1024, height: 768 };
    match w.poll_events(12, &buffer(&resize.encode())) {
        Some(Ok(Event::Resize(e))) => assert_eq!(e, resize),
        other => panic!("unexpected {:?}", other),
    }
    let mut title = [0u8; 64];
    title[..4].copy_from_slice(b"Edit");
    let lifecycle = WindowLifecycleEvent { op: 0x22, event_type: 3, window_id: 9, title };
    match w.poll_events(76, &buffer(&lifecycle.encode())) {
        Some(Ok(Event::Lifecycle(e))) => assert_eq!(e, lifecycle),
        other => panic!("unexpected {:?}", other),
    }
}

#[test]
fn poll_keeps_unknown_opcodes_visible() {
    let w = window();
    assert!(matches!(w.poll_events(4, &buffer(&[0x23, 0, 0, 0])), Some(Ok(Event::Unknown))));
    assert!(matches!(w.poll_events(8, &buffer(&[0xFF, 0, 0, 0, 1, 0, 0, 0])), Some(Ok(Event::Unknown))));
    assert!(matches!(w.poll_events(24, &buffer(&[0x10, 0, 0, 0])), Some(Ok(Event::Unknown))));
}

#[test]
fn poll_refuses_short_frames() {
    let w = window();
    let input = InputEvent { op: 0x20, event_type: 1, param1: 65, param2: 1 }.encode();
    for len in 1..16 {
        assert!(matches!(
            w.poll_events(len, &buffer(&input)),
            Some(Err(SysError::ProtocolError))
        ));
    }
    let resize = ResizeEvent { op: 0x21, width: 1, height: 2 }.encode();
    assert!(matches!(w.poll_events(11, &buffer(&resize)), Some(Err(SysError::ProtocolError))));
    let lifecycle = [0x22u8, 0, 0, 0];
    assert!(matches!(
        w.poll_events(75, &buffer(&lifecycle)),
        Some(Err(SysError::ProtocolError))
    ));
}

#[test]
fn poll_refuses_more_bytes_than_were_handed_over() {
    let w = window();
    let input = InputEvent { op: 0x20, event_type: 1, param1: 65, param2: 1 }.encode();
    assert!(matches!(w.poll_events(17, &input), Some(Err(SysError::ProtocolError))));
}

#[test]
fn event_decode_reads_the_opcode_first() {
    assert!(matches!(Event::decode(&[]), Err(SysError::ProtocolError)));
    assert!(matches!(Event::decode(&[0x20, 0, 0]), Err(SysError::ProtocolError)));
    assert!(matches!(Event::decode(&[0x99, 0, 0, 0]), Ok(Event::Unknown)));
    let input = InputEvent { op: 0x20, event_type: event_type::MOUSE_MOVE, param1: 10, param2: 20 };
    match Event::decode(&input.encode()) {
        Ok(Event::Input(e)) => {
            assert_eq!(e.event_type, 3);
            assert_eq!((e.param1, e.param2), (10, 20));
        }
        other => panic!("unexpected {:?}", other),
    }
}

#[test]
fn input_and_resize_events_have_their_exact_bytes() {
    let input = InputEvent { op: 0x20, event_type: 2, param1: 0x100, param2: 3 };
    assert_eq!(input.encode(), vec![0x20, 0, 0, 0, 2, 0, 0, 0, 0, 1, 0, 0, 3, 0, 0, 0]);
    assert_eq!(InputEvent::decode(&input.encode()), Ok(input));
    let resize = ResizeEvent { op: 0x21, width: 2, height: 0x0A0B };
    assert_eq!(resize.encode(), vec![0x21, 0, 0, 0, 2, 0, 0, 0, 0x0B, 0x0A, 0, 0]);
    assert_eq!(ResizeEvent::decode(&resize.encode()), Ok(resize));
    assert_eq!(InputEvent::decode(&resize.encode()), Err(SysError::ProtocolError));
    assert_eq!(ResizeEvent::decode(&input.encode()), Err(SysError::ProtocolError));
}

#[test]
fn poll_descriptor_reports_events() {
    let fd = PollFd::new(&Handle::from_raw(5), events::IN | events::ERR);
    assert_eq!(fd, PollFd { handle: 5, events: 0x05, revents: 0 });
    assert!(!fd.has_event(events::IN));
    let ready = PollFd { revents: events::IN | events::HUP, ..fd };
    assert!(ready.has_event(events::IN));
    assert!(ready.has_event(events::HUP));
    assert!(!ready.has_event(events::OUT));
    assert!(ready.has_event(events::OUT | events::IN));
    assert!(!ready.has_event(0));
}

#[test]
fn poll_reply_is_decoded() {
    assert_eq!(poll(2), Ok(2));
    assert_eq!(poll(0), Ok(0));
    assert_eq!(poll(-12), Err(SysError::Interrupted));
}

#[test]
fn window_requests_have_their_opcodes_and_window() {
    let w = window();
    assert_eq!(w.destroy().frame, vec![0x02, 0, 0, 0, 9, 0, 0, 0]);
    assert_eq!(w.destroy(), w.destroy());
    assert_eq!(w.minimize().frame, vec![0x05, 0, 0, 0, 9, 0, 0, 0]);
    assert_eq!(w.restore().frame, vec![0x06, 0, 0, 0, 9, 0, 0, 0]);
    assert_eq!(
        w.move_to(-1, 2).frame,
        vec![0x09, 0, 0, 0, 9, 0, 0, 0, 255, 255, 255, 255, 2, 0, 0, 0]
    );
    assert_eq!(w.resize(5, 6).frame, vec![0x0A, 0, 0, 0, 9, 0, 0, 0, 5, 0, 0, 0, 6, 0, 0, 0]);
    assert_eq!(w.set_flags(0x8000).frame, vec![0x08, 0, 0, 0, 9, 0, 0, 0, 0, 0x80, 0, 0]);
    assert_eq!(
        w.present().frame,
        vec![0x03, 0, 0, 0, 9, 0, 0, 0, 0, 0, 0, 0, 0, 0, 0, 0, 4, 0, 0, 0, 3, 0, 0, 0]
    );
    for out in [w.destroy(), w.minimize(), w.restore(), w.move_to(1, 1), w.resize(1, 1)] {
        assert_eq!(out.port, Handle::from_raw(4));
        assert_eq!(out.flags, 0);
    }
}

#[test]
fn send_reply_is_passed_on() {
    assert_eq!(Window::sent(24), Ok(()));
    assert_eq!(Window::sent(0), Ok(()));
    assert_eq!(Window::sent(-3), Err(SysError::InvalidArgument));
    assert_eq!(Window::sent(-18), Err(SysError::IoError));
}
