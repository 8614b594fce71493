use mockstream::{
    CheckedMockStream, CheckedMockStreamBuilder, StreamError, Transfer,
};
use std::io::ErrorKind;
use std::time::Duration;

/// Reads with room for `room` bytes, passing over pauses; returns the bytes
/// delivered.
fn read_chunk(stream: &mut CheckedMockStream, room: usize) -> Result<Vec<u8>, StreamError> {
    let mut buf = vec![0u8; room];
    loop {
        match stream.read(&mut buf)? {
            Transfer::Done(n) => {
                buf.truncate(n);
                return Ok(buf);
            }
            Transfer::Wait(_) => {}
        }
    }
}

/// Reads with room for `room` bytes at a time until a read delivers nothing.
fn read_all(stream: &mut CheckedMockStream, room: usize) -> Vec<u8> {
    let mut all = Vec::new();
    loop {
        let chunk = read_chunk(stream, room).unwrap();
        if chunk.is_empty() {
            return all;
        }
        all.extend_from_slice(&chunk);
    }
}

/// Writes `buf`, passing over pauses.
fn write_once(stream: &mut CheckedMockStream, buf: &[u8]) -> Result<usize, StreamError> {
    loop {
        match stream.write(buf)? {
            Transfer::Done(n) => return Ok(n),
            Transfer::Wait(_) => {}
        }
    }
}

fn done(r: Result<Transfer, StreamError>) -> usize {
    match r {
        Ok(Transfer::Done(n)) => n,
        other => panic!("expected a transfer, got {:?}", other),
    }
}

#[test]
fn read_then_write_then_exhausted() {
    let mut stream = CheckedMockStreamBuilder::new()
        .read(b"Hi\n".to_vec())
        .write(b"Ack\n".to_vec())
        .build();

    let mut buf = [0u8; 10];
    assert_eq!(done(stream.read(&mut buf)), 3);
    assert_eq!(&buf[..3], b"Hi\n");
    assert_eq!(&buf[3..], &[0u8; 7]);

    assert_eq!(done(stream.write(b"Ack\n")), 4);
    assert_eq!(stream.written(), b"Ack\n");

    assert_eq!(done(stream.write(b"Ack\n")), 0);
    assert_eq!(stream.written(), b"Ack\n");
}

#[test]
fn short_write_is_a_mismatch_and_long_write_is_partial() {
    let mut stream = CheckedMockStreamBuilder::new().write(b"AB".to_vec()).build();

    let err = stream.write(b"A").unwrap_err();
    assert_eq!(err.kind, ErrorKind::InvalidInput);
    assert_eq!(err.message, "mismatch written data");
    assert_eq!(stream.written(), b"");

    assert_eq!(done(stream.write(b"ABC")), 2);
    assert_eq!(stream.written(), b"AB");

    assert_eq!(done(stream.write(b"C")), 0);
}

#[test]
fn wrong_bytes_fail_and_can_be_retried() {
    let mut stream = CheckedMockStreamBuilder::new()
        .write(b"Ping\n".to_vec())
        .write(b"Pong\n".to_vec())
        .build();

    let err = stream.write(b"Pong\n").unwrap_err();
    assert_eq!(err.kind, ErrorKind::InvalidInput);
    assert_eq!(stream.written(), b"");

    assert_eq!(done(stream.write(b"Ping\n")), 5);
    assert_eq!(done(stream.write(b"Pong\n")), 5);
    assert_eq!(stream.written(), b"Ping\nPong\n");
}

#[test]
fn exact_write_accepts_all_and_moves_on() {
    let mut stream = CheckedMockStreamBuilder::new()
        .write(b"Hello".to_vec())
        .read(b"!".to_vec())
        .build();
    assert_eq!(done(stream.write(b"Hello")), 5);
    assert_eq!(stream.written(), b"Hello");
    assert_eq!(read_chunk(&mut stream, 4).unwrap(), b"!");
}

#[test]
fn chunking_does_not_change_what_is_read() {
    let payload = b"First\nSecond\nThird\n";
    for room in 1..=payload.len() + 2 {
        let mut stream = CheckedMockStreamBuilder::new()
            .read(b"First\n".to_vec())
            .wait(Duration::from_millis(1))
            .read(b"Second\n".to_vec())
            .read(Vec::new())
            .read(b"Third\n".to_vec())
            .build();
        let mut all = Vec::new();
        let mut calls = 0;
        while all.len() < payload.len() {
            all.extend_from_slice(&read_chunk(&mut stream, room).unwrap());
            calls += 1;
            assert!(calls <= 2 * payload.len() + 4);
        }
        assert_eq!(all, payload);
        assert_eq!(read_chunk(&mut stream, room).unwrap(), b"");
    }
}

#[test]
fn a_read_never_crosses_into_the_next_action() {
    let mut stream = CheckedMockStreamBuilder::new()
        .read(b"abc".to_vec())
        .read(b"defg".to_vec())
        .build();
    let mut buf = [0u8; 16];
    assert_eq!(done(stream.read(&mut buf)), 3);
    assert_eq!(&buf[..3], b"abc");
    assert_eq!(done(stream.read(&mut buf[..2])), 2);
    assert_eq!(&buf[..3], b"dec");
    assert_eq!(done(stream.read(&mut buf)), 2);
    assert_eq!(&buf[..3], b"fgc");
    assert_eq!(done(stream.read(&mut buf)), 0);
}

#[test]
fn replay_after_reset_actions_repeats_replies_and_adds_to_the_log() {
    let mut stream = CheckedMockStreamBuilder::new()
        .read(b"Hello\n".to_vec())
        .write(b"Ack\n".to_vec())
        .read_error(StreamError::new(ErrorKind::TimedOut, "late"))
        .read(b"Bye\n".to_vec())
        .build();

    let mut passes = Vec::new();
    for _ in 0..2 {
        let mut replies: Vec<String> = Vec::new();
        replies.push(format!("{:?}", read_chunk(&mut stream, 4)));
        replies.push(format!("{:?}", read_chunk(&mut stream, 4)));
        replies.push(format!("{:?}", write_once(&mut stream, b"Nope")));
        replies.push(format!("{:?}", write_once(&mut stream, b"Ack\nmore")));
        replies.push(format!("{:?}", read_chunk(&mut stream, 4)));
        replies.push(format!("{:?}", read_chunk(&mut stream, 4)));
        replies.push(format!("{:?}", read_chunk(&mut stream, 4)));
        passes.push(replies);
        stream.reset_actions();
    }
    assert_eq!(passes[0], passes[1]);
    assert_eq!(stream.written(), b"Ack\nAck\n");
}

#[test]
fn seek_and_reset_written_behave_as_a_fresh_suffix() {
    let mut full = CheckedMockStreamBuilder::new()
        .read(b"One\n".to_vec())
        .write(b"Two\n".to_vec())
        .write(b"Three\n".to_vec())
        .read(b"Four\n".to_vec())
        .build();
    let mut suffix = CheckedMockStreamBuilder::new()
        .write(b"Three\n".to_vec())
        .read(b"Four\n".to_vec())
        .build();

    assert_eq!(read_all(&mut full, 8), b"One\n");
    assert_eq!(write_once(&mut full, b"Two\n").unwrap(), 4);
    full.seek_action(2);
    full.reset_written();

    for stream in [&mut full, &mut suffix] {
        assert_eq!(read_chunk(stream, 8).unwrap(), b"");
        assert!(write_once(stream, b"Thr").is_err());
        assert_eq!(write_once(stream, b"Three\nFour").unwrap(), 6);
        assert_eq!(read_chunk(stream, 3).unwrap(), b"Fou");
        assert_eq!(read_chunk(stream, 3).unwrap(), b"r\n");
        assert_eq!(read_chunk(stream, 3).unwrap(), b"");
        assert_eq!(stream.written(), b"Three\n");
    }
}

#[test]
fn seek_resets_the_offset_and_keeps_the_log() {
    let mut stream = CheckedMockStreamBuilder::new()
        .write(b"W".to_vec())
        .read(b"abcdef".to_vec())
        .build();
    assert_eq!(write_once(&mut stream, b"W").unwrap(), 1);
    assert_eq!(read_chunk(&mut stream, 2).unwrap(), b"ab");
    stream.seek_action(1);
    assert_eq!(stream.written(), b"W");
    assert_eq!(read_chunk(&mut stream, 4).unwrap(), b"abcd");
    assert_eq!(read_chunk(&mut stream, 4).unwrap(), b"ef");
}

#[test]
fn seek_past_the_end_exhausts_the_script() {
    let mut stream = CheckedMockStreamBuilder::new().read(b"abc".to_vec()).build();
    stream.seek_action(7);
    assert_eq!(read_chunk(&mut stream, 4).unwrap(), b"");
    assert_eq!(write_once(&mut stream, b"x").unwrap(), 0);
    stream.seek_action(1);
    assert_eq!(read_chunk(&mut stream, 4).unwrap(), b"");
    stream.seek_action(0);
    assert_eq!(read_chunk(&mut stream, 4).unwrap(), b"abc");
}

#[test]
fn reset_rewinds_the_cursor_and_empties_the_log() {
    let mut stream = CheckedMockStreamBuilder::new()
        .write(b"in".to_vec())
        .read(b"out".to_vec())
        .build();
    assert_eq!(write_once(&mut stream, b"in").unwrap(), 2);
    assert_eq!(read_chunk(&mut stream, 2).unwrap(), b"ou");
    stream.reset();
    assert_eq!(stream.written(), b"");
    assert_eq!(read_chunk(&mut stream, 2).unwrap(), b"");
    assert_eq!(write_once(&mut stream, b"in").unwrap(), 2);
    assert_eq!(read_chunk(&mut stream, 8).unwrap(), b"out");
}

#[test]
fn scripted_errors_are_reported_once_with_kind_and_message() {
    let mut stream = CheckedMockStreamBuilder::new()
        .read_error(StreamError::new(ErrorKind::ConnectionReset, "gone"))
        .write_error(StreamError::new(ErrorKind::BrokenPipe, "pipe"))
        .read(b"ok".to_vec())
        .build();

    let mut buf = [0u8; 4];
    let err = stream.read(&mut buf).unwrap_err();
    assert_eq!(err.kind, ErrorKind::ConnectionReset);
    assert_eq!(err.message, "gone");
    assert_eq!(buf, [0u8; 4]);

    assert_eq!(done(stream.read(&mut buf)), 0);

    let err = stream.write(b"data").unwrap_err();
    assert_eq!(err.kind, ErrorKind::BrokenPipe);
    assert_eq!(err.message, "pipe");
    assert_eq!(stream.written(), b"");

    assert_eq!(done(stream.read(&mut buf)), 2);

    stream.seek_action(0);
    let err = stream.read(&mut buf).unwrap_err();
    assert_eq!(err.kind, ErrorKind::ConnectionReset);
    assert_eq!(err.message, "gone");
}

#[test]
fn the_wrong_direction_transfers_nothing_and_does_not_advance() {
    let mut stream = CheckedMockStreamBuilder::new()
        .write(b"w".to_vec())
        .write_error(StreamError::new(ErrorKind::Other, "we"))
        .read(b"r".to_vec())
        .read_error(StreamError::new(ErrorKind::Other, "re"))
        .build();
    let mut buf = [9u8; 4];

    assert_eq!(done(stream.read(&mut buf)), 0);
    assert_eq!(done(stream.write(b"w")), 1);
    assert_eq!(done(stream.read(&mut buf)), 0);
    assert!(stream.write(b"w").is_err());
    assert_eq!(done(stream.write(b"w")), 0);
    assert_eq!(done(stream.read(&mut buf)), 1);
    assert_eq!(buf, [b'r', 9, 9, 9]);
    assert_eq!(done(stream.write(b"w")), 0);
    assert!(stream.read(&mut buf).is_err());
    assert_eq!(stream.written(), b"w");
}

#[test]
fn empty_buffers_transfer_nothing_and_do_not_advance() {
    let mut stream = CheckedMockStreamBuilder::new()
        .read_error(StreamError::new(ErrorKind::Other, "re"))
        .wait(Duration::from_millis(5))
        .write(Vec::new())
        .write(b"x".to_vec())
        .build();
    let mut none = [0u8; 0];
    assert_eq!(done(stream.read(&mut none)), 0);
    assert_eq!(done(stream.write(b"")), 0);
    assert!(stream.read(&mut [0u8; 1]).is_err());
    assert_eq!(done(stream.read(&mut none)), 0);
    assert_eq!(done(stream.write(b"")), 0);
    match stream.write(b"x") {
        Ok(Transfer::Wait(pause)) => assert_eq!(pause, Duration::from_millis(5)),
        other => panic!("expected a pause, got {:?}", other),
    }
    assert_eq!(done(stream.write(b"")), 0);
    assert_eq!(done(stream.write(b"x")), 0);
    assert_eq!(done(stream.write(b"x")), 1);
    assert_eq!(stream.written(), b"x");
}

#[test]
fn a_pause_is_reported_once_with_its_length() {
    let mut stream = CheckedMockStreamBuilder::new()
        .wait(Duration::from_millis(250))
        .read(b"late".to_vec())
        .wait(Duration::from_secs(2))
        .write(b"later".to_vec())
        .build();
    let mut buf = [0u8; 8];
    match stream.read(&mut buf) {
        Ok(Transfer::Wait(pause)) => assert_eq!(pause, Duration::from_millis(250)),
        other => panic!("expected a pause, got {:?}", other),
    }
    assert_eq!(buf, [0u8; 8]);
    assert_eq!(done(stream.read(&mut buf)), 4);
    assert_eq!(&buf[..4], b"late");
    match stream.read(&mut buf) {
        Ok(Transfer::Wait(pause)) => assert_eq!(pause, Duration::from_secs(2)),
        other => panic!("expected a pause, got {:?}", other),
    }
    assert_eq!(done(stream.read(&mut buf)), 0);
    assert_eq!(done(stream.write(b"later")), 5);
}

#[test]
fn flush_changes_nothing() {
    let mut stream = CheckedMockStreamBuilder::new()
        .write(b"a".to_vec())
        .write(b"b".to_vec())
        .build();
    assert!(stream.flush().is_ok());
    assert_eq!(done(stream.write(b"a")), 1);
    assert!(stream.flush().is_ok());
    assert!(stream.poll_flush().is_ok());
    assert!(stream.poll_shutdown().is_ok());
    assert_eq!(stream.written(), b"a");
    assert_eq!(done(stream.write(b"b")), 1);
    assert_eq!(stream.written(), b"ab");
}

#[test]
fn build_cap_builds_the_same_stream() {
    let builder = CheckedMockStreamBuilder::new()
        .write(b"one".to_vec())
        .read(b"two".to_vec())
        .write(b"three".to_vec());
    let mut plain = builder.clone().build();
    let mut roomy = builder.build_cap();
    for stream in [&mut plain, &mut roomy] {
        assert_eq!(stream.written(), b"");
        assert_eq!(write_once(stream, b"one").unwrap(), 3);
        assert_eq!(read_all(stream, 2), b"two");
        assert_eq!(write_once(stream, b"three").unwrap(), 5);
        assert_eq!(stream.written(), b"onethree");
    }
}

#[test]
fn a_cloned_builder_keeps_its_own_script() {
    let base = CheckedMockStreamBuilder::new()
        .read(b"a".to_vec())
        .read_error(StreamError::new(ErrorKind::NotFound, "nf"));
    let mut longer = base.clone().read(b"b".to_vec()).build();
    let mut shorter = base.build();

    assert_eq!(read_chunk(&mut longer, 4).unwrap(), b"a");
    assert_eq!(read_chunk(&mut longer, 4).unwrap_err().kind, ErrorKind::NotFound);
    assert_eq!(read_chunk(&mut longer, 4).unwrap(), b"b");

    assert_eq!(read_chunk(&mut shorter, 4).unwrap(), b"a");
    assert_eq!(read_chunk(&mut shorter, 4).unwrap_err().message, "nf");
    assert_eq!(read_chunk(&mut shorter, 4).unwrap(), b"");
}

#[test]
fn the_default_builder_has_an_empty_script() {
    let mut stream = CheckedMockStreamBuilder::default().build();
    let mut buf = [0u8; 4];
    assert_eq!(done(stream.read(&mut buf)), 0);
    assert_eq!(done(stream.write(b"x")), 0);
    assert_eq!(stream.written(), b"");
}

#[test]
fn stream_errors_hold_kind_and_message() {
    let err = StreamError::new(ErrorKind::PermissionDenied, "no entry");
    assert_eq!(err.kind, ErrorKind::PermissionDenied);
    assert_eq!(err.message, "no entry");
    let copy = err.clone();
    assert_eq!(copy.kind, ErrorKind::PermissionDenied);
    assert_eq!(copy.message, "no entry");
    let mismatch = StreamError::mismatch();
    assert_eq!(mismatch.kind, ErrorKind::InvalidInput);
    assert_eq!(mismatch.message, "mismatch written data");
}
