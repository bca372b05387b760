use nix::fcntl::{open, OFlag};
use nix::sys::stat::Mode;
use nart::session::{received_bytes, ReadError, SessionState};

#[test]
fn would_block_gives_no_bytes() {
    let buffer = [7u8; 16];
    assert!(received_bytes(&buffer, Err(ReadError::WouldBlock)).is_empty());
    assert!(received_bytes(&buffer, Err(ReadError::NotReady)).is_empty());
    assert!(received_bytes(&buffer, Err(ReadError::Other(9))).is_empty());
}

#[test]
fn successful_read_gives_the_bytes_read() {
    let buffer = [1u8, 2, 3, 4, 5];
    assert_eq!(received_bytes(&buffer, Ok(3)), vec![1, 2, 3]);
    assert_eq!(received_bytes(&buffer, Ok(0)), Vec::<u8>::new());
    assert_eq!(received_bytes(&buffer, Ok(9)), vec![1, 2, 3, 4, 5]);
}

#[test]
fn transient_errors() {
    assert!(ReadError::WouldBlock.is_transient());
    assert!(ReadError::NotReady.is_transient());
    assert!(!ReadError::Other(5).is_transient());
}

#[test]
fn empty_non_blocking_descriptor_reads_nothing() {
    let flags = OFlag::O_RDWR | OFlag::O_NOCTTY | OFlag::O_NONBLOCK;
    let Ok(fd) = open("/dev/ptmx", flags, Mode::empty()) else {
        return;
    };
    let mut buffer = [0u8; 65536];
    let result = match nix::unistd::read(fd, &mut buffer) {
        Ok(n) => Ok(n),
        Err(nix::errno::Errno::EAGAIN) => Err(ReadError::WouldBlock),
        Err(nix::errno::Errno::EIO) => Err(ReadError::NotReady),
        Err(e) => Err(ReadError::Other(e as i32)),
    };
    let _ = nix::unistd::close(fd);
    assert!(matches!(result, Err(ref e) if e.is_transient()));
    assert!(received_bytes(&buffer, result).is_empty());
}

#[test]
fn close_hands_out_the_child_once() {
    let mut session = SessionState::new(42);
    assert!(session.is_open());
    assert_eq!(session.close(), Some(42));
    assert!(!session.is_open());
    assert_eq!(session.close(), None);
    assert!(!session.is_open());
}
