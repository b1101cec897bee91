use pty_channel::ConstructionError;
use pty_channel::OutputPoll;
use pty_channel::PtyInput;
use pty_channel::PtyStream;
use pty_channel::create;
use pty_channel::decode_output;

fn size(rows: u16, cols: u16) -> portable_pty::PtySize {
    portable_pty::PtySize {
        rows,
        cols,
        pixel_width: 0,
        pixel_height: 0,
    }
}

/// Poll the stream, appending chunks, until `expected` has been
/// accumulated (or a generous poll budget runs out).
fn read_until(rx: &mut PtyStream, expected: &str) -> String {
    let mut out = String::new();
    let mut polls: usize = 0;
    while out != expected && polls < 10_000 {
        match rx.poll_next() {
            OutputPoll::Chunk(chunk) => out += &chunk,
            OutputPoll::NotReady => {}
            OutputPoll::Ended => break,
        }
        polls += 1;
    }
    out
}

#[test]
fn input_and_output() {
    let (mut tx, mut rx) = create("cat", size(30, 40)).unwrap();

    tx.start_send(PtyInput::Text("Hello world\n")).unwrap();

    // The terminal echoes the typed line, then `cat` echoes it again.
    let out = read_until(&mut rx, "Hello world\r\nHello world\r\n");
    assert_eq!(out, "Hello world\r\nHello world\r\n");
}

#[test]
fn monotonic_termination() {
    // A child that exits at once; the stream must end and stay ended.
    let (_tx, mut rx) = create("true", size(24, 80)).unwrap();

    let mut polls: usize = 0;
    loop {
        match rx.poll_next() {
            OutputPoll::Ended => break,
            _ => {}
        }
        polls += 1;
        assert!(polls < 10_000, "stream never reported the end");
    }
    assert!(matches!(rx.poll_next(), OutputPoll::Ended));
    assert!(matches!(rx.poll_next(), OutputPoll::Ended));
}

#[test]
fn resize_is_independent_of_text_writes() {
    let (mut tx, mut rx) = create("cat", size(24, 80)).unwrap();

    assert!(tx.poll_ready().is_ok());
    tx.start_send(PtyInput::Resize(40, 100)).unwrap();
    // A resize does not block a subsequent text submission ...
    assert!(tx.poll_ready().is_ok());
    tx.start_send(PtyInput::Text("ping\n")).unwrap();

    // ... and produces no output chunk of its own: the output is
    // exactly the echoed text.
    let out = read_until(&mut rx, "ping\r\nping\r\n");
    assert_eq!(out, "ping\r\nping\r\n");
}

#[test]
fn lossy_decoding_never_fails() {
    assert_eq!(decode_output(&[]), "");
    assert_eq!(decode_output(b"plain text"), "plain text");
    // Invalid bytes are substituted, never rejected.
    assert_eq!(decode_output(&[0xff, 0xfe, 0x41]), "\u{FFFD}\u{FFFD}A");
    assert_eq!(decode_output(&[0xf0, 0x9f]), "\u{FFFD}");
    // Valid multi-byte sequences survive.
    assert_eq!(decode_output("héllo".as_bytes()), "héllo");
}

#[test]
fn ordering_of_text_submissions() {
    let (mut tx, mut rx) = create("cat", size(24, 80)).unwrap();

    tx.start_send(PtyInput::Text("A")).unwrap();
    tx.start_send(PtyInput::Text("B")).unwrap();
    tx.start_send(PtyInput::Text("\n")).unwrap();

    let out = read_until(&mut rx, "AB\r\nAB\r\n");
    assert_eq!(out, "AB\r\nAB\r\n");
    assert!(out.find('A').unwrap() < out.find('B').unwrap());
}

#[test]
fn large_output_arrives_in_bounded_chunks() {
    let (mut tx, mut rx) = create("cat", size(24, 80)).unwrap();

    let line = "x".repeat(1500);
    let mut message = line.clone();
    message += "\n";
    tx.start_send(PtyInput::Text(&message)).unwrap();

    let mut expected = line.clone();
    expected += "\r\n";
    expected += &line;
    expected += "\r\n";

    let mut out = String::new();
    let mut polls: usize = 0;
    while out != expected && polls < 10_000 {
        match rx.poll_next() {
            OutputPoll::Chunk(chunk) => {
                // Each chunk comes from one read of the fixed-size
                // buffer, so it never exceeds 1024 bytes.
                assert!(chunk.len() <= 1024);
                assert!(!chunk.is_empty());
                out += &chunk;
            }
            OutputPoll::NotReady => {}
            OutputPoll::Ended => break,
        }
        polls += 1;
    }
    assert_eq!(out, expected);
}

#[test]
fn child_exit_decides_the_end() {
    assert!(pty_channel::child_exit_ends_stream(
        pty_channel::ChildStatusPoll::Exited
    ));
    assert!(!pty_channel::child_exit_ends_stream(
        pty_channel::ChildStatusPoll::Running
    ));
    assert!(!pty_channel::child_exit_ends_stream(
        pty_channel::ChildStatusPoll::Unknown
    ));
}

#[test]
fn read_outcome_decides_the_report() {
    let buf = [b'h', b'i', 0, 0];
    // n > 0 bytes read: exactly those bytes, decoded, as one chunk.
    match pty_channel::read_outcome_report(Ok(2), &buf) {
        OutputPoll::Chunk(chunk) => assert_eq!(chunk, "hi"),
        _ => panic!("expected a chunk"),
    }
    // Invalid bytes still yield a chunk, decoded best-effort.
    match pty_channel::read_outcome_report(Ok(3), &[0xff, 0xfe, b'A', 0]) {
        OutputPoll::Chunk(chunk) => assert_eq!(chunk, "\u{FFFD}\u{FFFD}A"),
        _ => panic!("expected a chunk"),
    }
    // A zero read and a failed read both mean "not ready", never the
    // end and never an error.
    assert!(matches!(
        pty_channel::read_outcome_report(Ok(0), &buf),
        OutputPoll::NotReady
    ));
    assert!(matches!(
        pty_channel::read_outcome_report(Err(()), &buf),
        OutputPoll::NotReady
    ));
}

#[test]
fn resize_request_has_zero_pixel_dimensions() {
    let request = pty_channel::resize_request(40, 100);
    assert_eq!(request.rows, 40);
    assert_eq!(request.cols, 100);
    assert_eq!(request.pixel_width, 0);
    assert_eq!(request.pixel_height, 0);
}

#[test]
fn construction_failure_is_atomic() {
    let result = create("no_such_program_anywhere_on_this_system", size(24, 80));
    assert!(matches!(result, Err(ConstructionError::Spawn)));
}

#[test]
fn flush_and_close_always_succeed() {
    let (tx, _rx) = create("cat", size(24, 80)).unwrap();
    assert!(tx.poll_flush().is_ok());
    assert!(tx.poll_close().is_ok());
    assert!(tx.poll_flush().is_ok());
}
