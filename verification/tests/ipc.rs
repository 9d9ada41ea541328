use redpowder::io::{Handle, HandleRights, INVALID_RAW, RIGHT_READ, RIGHT_SEEK, RIGHT_WRITE};
use redpowder::ipc::shm::{SharedMemory, ShmId};
use redpowder::ipc::{create_port, flags, peek, Port, RecvStep, RecvWait, RECV_POLL_INTERVAL};
use redpowder::syscall::error::SysError;

#[test]
fn port_is_created_from_the_reply() {
    let port = Port::create(12).unwrap();
    assert_eq!(*port.handle(), Handle::from_raw(12));
    assert_eq!(port.handle().raw(), 12);
    assert_eq!(Port::create(-7), Err(SysError::AlreadyExists));
    assert_eq!(Port::create(-19), Err(SysError::LimitReached));
    assert_eq!(create_port(0).unwrap().handle().raw(), 0);
}

#[test]
fn port_handle_is_the_low_half_of_the_reply() {
    let wide: i64 = (1i64 << 32) + 7;
    assert_eq!(Port::create(wide as isize).unwrap().handle().raw(), 7);
}

#[test]
fn connect_reports_unknown_names() {
    assert_eq!(Port::connect(-6), Err(SysError::NotFound));
    assert_eq!(Port::connect(4).unwrap().handle().raw(), 4);
}

#[test]
fn duplicate_is_a_second_owner_of_the_queue() {
    let first = Port::create(5).unwrap();
    let second = first.duplicate(6).unwrap();
    assert_eq!(second.handle().raw(), 6);
    assert_eq!(first.handle().raw(), 5);
    drop(second);
    assert_eq!(first.send(3), Ok(3));
    assert_eq!(first.duplicate(-4), Err(SysError::InvalidHandle));
}

#[test]
fn send_reports_the_bytes_accepted() {
    let port = Port::create(5).unwrap();
    assert_eq!(port.send(24), Ok(24));
    assert_eq!(port.send(-3), Err(SysError::InvalidArgument));
    assert_eq!(port.send(-18), Err(SysError::IoError));
    assert_eq!(flags::NONBLOCK, 1);
    assert_eq!(flags::URGENT, 2);
}

#[test]
fn peek_reports_the_waiting_message() {
    assert_eq!(peek(24), Ok(24));
    assert_eq!(peek(0), Ok(0));
    assert_eq!(peek(-4), Err(SysError::InvalidHandle));
}

#[test]
fn receive_with_data_ends_at_once() {
    let port = Port::create(5).unwrap();
    let mut wait = RecvWait::new(1000);
    assert_eq!(port.recv(&mut wait, 17), RecvStep::Done(Ok(17)));
    assert_eq!(wait, RecvWait { timeout: 1000, waited: 0 });
}

#[test]
fn receive_without_timeout_never_sleeps() {
    let port = Port::create(5).unwrap();
    let mut wait = RecvWait::new(0);
    assert_eq!(port.recv(&mut wait, 0), RecvStep::Done(Ok(0)));
    let mut wait = RecvWait::new(0);
    assert_eq!(port.recv(&mut wait, -9), RecvStep::Done(Ok(0)));
}

#[test]
fn receive_sleeps_in_steps_until_the_timeout() {
    assert_eq!(RECV_POLL_INTERVAL, 10);
    let port = Port::create(5).unwrap();
    let mut wait = RecvWait::new(25);
    assert_eq!(port.recv(&mut wait, 0), RecvStep::Sleep(10));
    assert_eq!(wait.waited, 10);
    assert_eq!(port.recv(&mut wait, 0), RecvStep::Sleep(10));
    assert_eq!(wait.waited, 20);
    assert_eq!(port.recv(&mut wait, 0), RecvStep::Sleep(5));
    assert_eq!(wait.waited, 25);
    assert_eq!(port.recv(&mut wait, 0), RecvStep::Done(Ok(0)));
    assert_eq!(wait.waited, 25);
}

#[test]
fn receive_timeout_is_empty_and_no_error() {
    let port = Port::create(5).unwrap();
    let mut wait = RecvWait::new(10);
    assert_eq!(port.recv(&mut wait, -9), RecvStep::Sleep(10));
    assert_eq!(port.recv(&mut wait, -9), RecvStep::Done(Ok(0)));
}

#[test]
fn receive_passes_other_errors_on() {
    let port = Port::create(5).unwrap();
    let mut wait = RecvWait::new(100);
    assert_eq!(port.recv(&mut wait, -4), RecvStep::Done(Err(SysError::InvalidHandle)));
    assert_eq!(wait.waited, 0);
}

#[test]
fn receive_never_sleeps_longer_than_the_timeout() {
    let port = Port::create(5).unwrap();
    for timeout in [0u64, 1, 9, 10, 11, 99, 100, 1234] {
        let mut wait = RecvWait::new(timeout);
        let mut slept = 0;
        let mut looks = 0;
        loop {
            looks += 1;
            match port.recv(&mut wait, 0) {
                RecvStep::Sleep(ms) => {
                    assert!(ms > 0 && ms <= 10);
                    slept += ms;
                }
                RecvStep::Done(r) => {
                    assert_eq!(r, Ok(0));
                    break;
                }
            }
        }
        assert_eq!(slept, timeout);
        assert_eq!(looks, (timeout + 9) / 10 + 1);
    }
}

#[test]
fn shared_region_reports_the_size_the_kernel_told() {
    let region = SharedMemory::open(ShmId(42), 1_920_000, 0x4000_0000).unwrap();
    assert_eq!(region.id(), ShmId(42));
    assert_eq!(region.size(), 1_920_000);
    assert_eq!(region.addr(), 0x4000_0000);
}

#[test]
fn shared_region_open_fails_for_unknown_ids() {
    assert_eq!(SharedMemory::open(ShmId(42), -6, 0x4000_0000), Err(SysError::NotFound));
    assert_eq!(SharedMemory::open(ShmId(42), 4096, -10), Err(SysError::OutOfMemory));
    assert_eq!(SharedMemory::open(ShmId(42), -6, -10), Err(SysError::NotFound));
}

#[test]
fn shared_region_is_created_with_the_size_asked_for() {
    let region = SharedMemory::create(8192, 77, 0x5000).unwrap();
    assert_eq!(region.id(), ShmId(77));
    assert_eq!(region.size(), 8192);
    assert_eq!(region.addr(), 0x5000);
    assert_eq!(SharedMemory::create(8192, -10, 0x5000), Err(SysError::OutOfMemory));
    assert_eq!(SharedMemory::create(8192, 77, -21), Err(SysError::BadAddress));
    let attached = SharedMemory::attach(ShmId(3), 16, 0x9000).unwrap();
    assert_eq!((attached.id(), attached.size(), attached.addr()), (ShmId(3), 16, 0x9000));
}

#[test]
fn handles_know_whether_they_are_valid() {
    assert!(Handle::from_raw(0).is_valid());
    assert!(Handle::from_raw(7).is_valid());
    assert!(!Handle::from_raw(u32::MAX).is_valid());
    assert_eq!(Handle::invalid().raw(), INVALID_RAW);
    assert!(!Handle::invalid().is_valid());
    assert_eq!(Handle::from_raw(9).raw(), 9);
}

#[test]
fn rights_combine_and_contain() {
    let read = HandleRights::new(RIGHT_READ);
    let write = HandleRights::new(RIGHT_WRITE);
    let both = read.union(write);
    assert_eq!(both.bits(), 3);
    assert!(both.contains(read));
    assert!(both.contains(write));
    assert!(both.contains(both));
    assert!(!read.contains(write));
    assert!(!read.contains(both));
    assert!(read.contains(HandleRights::new(0)));
    let seek = HandleRights::new(RIGHT_SEEK);
    assert_eq!(seek.bits(), 1 << 32);
    assert_eq!(both.union(seek).bits(), (1 << 32) | 3);
    assert!(!both.contains(seek));
}
