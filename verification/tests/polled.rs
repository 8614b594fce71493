use mockstream::{CheckedMockStreamBuilder, Polled, SimpleMockStream, StreamError};
use std::io::ErrorKind;
use std::time::Duration;
use tokio::io::ReadBuf;

fn ready(r: Result<Polled, StreamError>) -> usize {
    match r {
        Ok(Polled::Ready(n)) => n,
        other => panic!("expected ready, got {:?}", other),
    }
}

fn sleep(r: Result<Polled, StreamError>) -> Duration {
    match r {
        Ok(Polled::Sleep(pause)) => pause,
        other => panic!("expected a pause, got {:?}", other),
    }
}

fn pending(r: Result<Polled, StreamError>) {
    match r {
        Ok(Polled::Pending) => {}
        other => panic!("expected pending, got {:?}", other),
    }
}

#[test]
fn polled_read_appends_to_the_filled_region() {
    let mut stream = CheckedMockStreamBuilder::new()
        .read(b"Hello".to_vec())
        .read(b", world".to_vec())
        .build();
    let mut space = [0u8; 16];
    let mut buf = ReadBuf::new(&mut space);
    buf.put_slice(b">>");

    assert_eq!(ready(stream.poll_read(true, &mut buf)), 5);
    assert_eq!(buf.filled(), b">>Hello");
    assert_eq!(buf.capacity(), 16);

    assert_eq!(ready(stream.poll_read(true, &mut buf)), 7);
    assert_eq!(buf.filled(), b">>Hello, world");
    assert_eq!(buf.remaining(), 2);

    assert_eq!(ready(stream.poll_read(true, &mut buf)), 0);
    assert_eq!(buf.filled(), b">>Hello, world");
}

#[test]
fn polled_read_delivers_no_more_than_fits() {
    let mut stream = CheckedMockStreamBuilder::new().read(b"abcdefgh".to_vec()).build();
    let mut space = [0u8; 5];
    let mut buf = ReadBuf::new(&mut space);
    buf.put_slice(b"xy");

    assert_eq!(ready(stream.poll_read(false, &mut buf)), 3);
    assert_eq!(buf.filled(), b"xyabc");
    assert_eq!(buf.remaining(), 0);

    assert_eq!(ready(stream.poll_read(false, &mut buf)), 0);
    assert_eq!(buf.filled(), b"xyabc");

    buf.clear();
    assert_eq!(ready(stream.poll_read(false, &mut buf)), 5);
    assert_eq!(buf.filled(), b"defgh");
    buf.clear();
    assert_eq!(ready(stream.poll_read(false, &mut buf)), 0);
    assert_eq!(buf.filled(), b"");
}

#[test]
fn a_pause_makes_polled_calls_not_ready_until_the_timer_expires() {
    let mut stream = CheckedMockStreamBuilder::new()
        .wait(Duration::from_millis(40))
        .read(b"late".to_vec())
        .wait(Duration::from_millis(70))
        .write(b"later".to_vec())
        .build();
    let mut space = [0u8; 8];
    let mut buf = ReadBuf::new(&mut space);

    assert_eq!(sleep(stream.poll_read(true, &mut buf)), Duration::from_millis(40));
    assert_eq!(buf.filled(), b"");
    pending(stream.poll_read(false, &mut buf));
    pending(stream.poll_write(false, b"later"));
    pending(stream.poll_read(false, &mut buf));
    assert_eq!(buf.filled(), b"");

    assert_eq!(ready(stream.poll_read(true, &mut buf)), 4);
    assert_eq!(buf.filled(), b"late");

    // With no timer in flight the flag is not looked at.
    assert_eq!(sleep(stream.poll_write(false, b"later")), Duration::from_millis(70));
    pending(stream.poll_write(false, b"later"));
    assert_eq!(stream.written(), b"");
    assert_eq!(ready(stream.poll_write(true, b"later")), 5);
    assert_eq!(stream.written(), b"later");
    assert_eq!(ready(stream.poll_write(false, b"later")), 0);
}

#[test]
fn polled_write_checks_against_the_script() {
    let mut stream = CheckedMockStreamBuilder::new()
        .write(b"AB".to_vec())
        .write_error(StreamError::new(ErrorKind::WriteZero, "full"))
        .write(b"CD".to_vec())
        .build();

    let err = stream.poll_write(true, b"A").unwrap_err();
    assert_eq!(err.kind, ErrorKind::InvalidInput);
    assert_eq!(err.message, "mismatch written data");
    assert_eq!(stream.written(), b"");

    assert_eq!(ready(stream.poll_write(true, b"ABCD")), 2);
    assert_eq!(stream.written(), b"AB");

    let err = stream.poll_write(true, b"CD").unwrap_err();
    assert_eq!(err.kind, ErrorKind::WriteZero);
    assert_eq!(err.message, "full");

    assert_eq!(ready(stream.poll_write(true, b"")), 0);
    assert_eq!(ready(stream.poll_write(true, b"CD")), 2);
    assert_eq!(stream.written(), b"ABCD");
    assert_eq!(ready(stream.poll_write(true, b"CD")), 0);
}

#[test]
fn polled_read_reports_scripted_errors_and_guards_direction() {
    let mut stream = CheckedMockStreamBuilder::new()
        .read_error(StreamError::new(ErrorKind::UnexpectedEof, "eof"))
        .write(b"w".to_vec())
        .build();
    let mut space = [0u8; 4];
    let mut buf = ReadBuf::new(&mut space);

    let err = stream.poll_read(true, &mut buf).unwrap_err();
    assert_eq!(err.kind, ErrorKind::UnexpectedEof);
    assert_eq!(err.message, "eof");
    assert_eq!(buf.filled(), b"");

    assert_eq!(ready(stream.poll_read(true, &mut buf)), 0);
    assert_eq!(ready(stream.poll_write(true, b"w")), 1);
    assert_eq!(ready(stream.poll_read(true, &mut buf)), 0);
}

#[test]
fn blocking_calls_pass_a_timer_by() {
    let mut stream = CheckedMockStreamBuilder::new()
        .wait(Duration::from_millis(10))
        .read(b"abc".to_vec())
        .build();
    let mut space = [0u8; 4];
    let mut buf = ReadBuf::new(&mut space);
    assert_eq!(sleep(stream.poll_read(true, &mut buf)), Duration::from_millis(10));

    let mut plain = [0u8; 2];
    match stream.read(&mut plain) {
        Ok(mockstream::Transfer::Done(n)) => assert_eq!(n, 2),
        other => panic!("expected a transfer, got {:?}", other),
    }
    assert_eq!(&plain, b"ab");

    pending(stream.poll_read(false, &mut buf));
    assert_eq!(ready(stream.poll_read(true, &mut buf)), 1);
    assert_eq!(buf.filled(), b"c");
}

#[test]
fn simple_polled_read_fills_what_fits() {
    let mut stream = SimpleMockStream::new(b"Hello\nGoodbye\n".to_vec());
    let mut space = [0u8; 8];
    let mut buf = ReadBuf::new(&mut space);
    buf.put_slice(b"# ");

    assert!(stream.poll_read(&mut buf).is_ok());
    assert_eq!(buf.filled(), b"# Hello\n");
    assert_eq!(stream.remaining(), b"Goodbye\n");

    assert!(stream.poll_read(&mut buf).is_ok());
    assert_eq!(buf.filled(), b"# Hello\n");
    assert_eq!(stream.remaining(), b"Goodbye\n");

    buf.clear();
    assert!(stream.poll_read(&mut buf).is_ok());
    assert_eq!(buf.filled(), b"Goodbye\n");
    assert_eq!(stream.remaining(), b"");

    buf.clear();
    assert!(stream.poll_read(&mut buf).is_ok());
    assert_eq!(buf.filled(), b"");
}

#[test]
fn simple_polled_write_logs_everything() {
    let mut stream = SimpleMockStream::empty();
    assert_eq!(stream.poll_write(b"abc").unwrap(), 3);
    assert_eq!(stream.poll_write(b"").unwrap(), 0);
    assert_eq!(stream.poll_write(b"de").unwrap(), 2);
    assert!(stream.poll_flush().is_ok());
    assert!(stream.poll_shutdown().is_ok());
    assert_eq!(stream.written(), b"abcde");
}
