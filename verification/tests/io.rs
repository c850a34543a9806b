use tokio_mock::io::{mock, ErrorKind, ReadPoll, StreamState, WritePoll};
use tokio_mock::step::Step;

#[test]
fn io_read() {
    let (mut io, mut handle) = mock();

    let buf: Vec<u8> = vec![0, 20];
    assert!(matches!(io.poll_read(buf.len()), ReadPoll::Suspended));
    handle.read(&mut io, vec![42]);
    match io.poll_read(buf.len()) {
        ReadPoll::Data(data) => {
            assert_eq!(data.len(), 1);
            assert_eq!(data, vec![42]);
        },
        other => panic!("expected the scripted byte, got {:?}", other),
    }
    assert!(matches!(io.poll_read(buf.len()), ReadPoll::Suspended));
}

#[test]
fn write_match() {
    let (mut io, mut handle) = mock();

    handle.write(&mut io, vec![0xAA, 0xBB]);
    match io.poll_write(&vec![0xAA, 0xBB]) {
        WritePoll::Accepted(n) => assert_eq!(n, 2),
        other => panic!("expected the bytes accepted, got {:?}", other),
    }
    assert!(!handle.is_write_pending(&io));
    assert!(handle.is_write_done(&io));
}

#[test]
fn write_mismatch() {
    let (mut io, mut handle) = mock();

    handle.write(&mut io, vec![0xAA, 0xBB]);
    match io.poll_write(&vec![0xAA, 0xCC]) {
        WritePoll::Mismatch(expected) => assert_eq!(expected, vec![0xAA, 0xBB]),
        other => panic!("expected a mismatch report, got {:?}", other),
    }
}

#[test]
fn write_pending_probe() {
    let (mut io, mut handle) = mock();

    assert!(!handle.is_write_pending(&io));
    assert!(matches!(io.poll_write(&vec![1]), WritePoll::Suspended));
    assert!(handle.is_write_pending(&io));
    handle.write(&mut io, vec![1]);
    assert!(matches!(io.poll_write(&vec![1]), WritePoll::Accepted(1)));
    assert!(!handle.is_write_pending(&io));
}

#[test]
fn read_error_then_rearm() {
    let (mut io, mut handle) = mock();

    handle.read_error(&mut io, ErrorKind::Interrupted);
    assert!(matches!(io.poll_read(8), ReadPoll::Failed(ErrorKind::Interrupted)));
    // The failing state persists until the side is re-armed.
    assert!(matches!(io.poll_read(8), ReadPoll::Failed(ErrorKind::Interrupted)));
    handle.read(&mut io, vec![5, 6]);
    match io.poll_read(8) {
        ReadPoll::Data(data) => assert_eq!(data, vec![5, 6]),
        other => panic!("expected the re-armed data, got {:?}", other),
    }
}

#[test]
fn write_error_then_rearm() {
    let (mut io, mut handle) = mock();

    handle.write_error(&mut io, ErrorKind::BrokenPipe);
    assert!(matches!(io.poll_write(&vec![1]), WritePoll::Failed(ErrorKind::BrokenPipe)));
    handle.write(&mut io, vec![1]);
    assert!(matches!(io.poll_write(&vec![1]), WritePoll::Accepted(1)));
}

#[test]
fn read_closed_gives_eof() {
    let (mut io, mut handle) = mock();

    handle.close_read(&mut io);
    assert!(matches!(io.poll_read(8), ReadPoll::Eof));
    assert!(matches!(io.poll_read(8), ReadPoll::Eof));
    // New data re-opens the closed side.
    handle.read(&mut io, vec![9]);
    match io.poll_read(8) {
        ReadPoll::Data(data) => assert_eq!(data, vec![9]),
        other => panic!("expected the re-armed data, got {:?}", other),
    }
}

#[test]
fn write_closed_swallows() {
    let (mut io, mut handle) = mock();

    handle.close_write(&mut io);
    assert!(matches!(io.poll_write(&vec![1, 2, 3]), WritePoll::Accepted(3)));
    assert!(matches!(io.poll_write(&vec![]), WritePoll::Accepted(0)));
}

#[test]
fn read_buffer_too_small() {
    let (mut io, mut handle) = mock();

    handle.read(&mut io, vec![1, 2, 3]);
    assert!(matches!(io.poll_read(2), ReadPoll::BufferTooSmall { needed: 3 }));
    // The violation leaves the script in place; a large enough buffer
    // still gets the chunk.
    match io.poll_read(3) {
        ReadPoll::Data(data) => assert_eq!(data, vec![1, 2, 3]),
        other => panic!("expected the scripted chunk, got {:?}", other),
    }
}

#[test]
fn script_done_probes() {
    let (mut io, mut handle) = mock();

    assert!(handle.is_read_done(&io));
    handle.read(&mut io, vec![1]);
    handle.write(&mut io, vec![2]);
    assert!(!handle.is_read_done(&io));
    assert!(!handle.is_write_done(&io));
    assert!(matches!(io.poll_read(4), ReadPoll::Data(_)));
    assert!(matches!(io.poll_write(&vec![2]), WritePoll::Accepted(1)));
    assert!(handle.is_read_done(&io));
    assert!(handle.is_write_done(&io));
}

#[test]
fn dropping_handle_closes_both_sides() {
    let (mut io, mut handle) = mock();

    handle.read(&mut io, vec![1]);
    handle.drop_handle(&mut io);
    assert!(matches!(io.poll_read(4), ReadPoll::Eof));
    assert!(matches!(io.poll_write(&vec![7]), WritePoll::Accepted(1)));
}

#[test]
fn flush_and_shutdown_complete() {
    let (mut io, handle) = mock();

    assert!(matches!(io.poll_flush(), Step::Completed(Ok(()))));
    assert!(matches!(io.poll_shutdown(), Step::Completed(Ok(()))));
    assert!(!handle.is_write_pending(&io));
}

#[test]
fn error_kinds_compare() {
    assert_eq!(ErrorKind::TimedOut, ErrorKind::TimedOut);
    assert_ne!(ErrorKind::TimedOut, ErrorKind::Other);
    assert_eq!(StreamState::Failing(ErrorKind::WouldBlock), StreamState::Failing(ErrorKind::WouldBlock));
    assert_ne!(StreamState::Open, StreamState::Closed);
}
