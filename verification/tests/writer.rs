use std::io::Write;
use sshhub::writer::FrameSink;

#[test]
fn new_sink_is_empty_and_not_flushing() {
    let sink = FrameSink::new();
    assert_eq!(sink.pending_len(), 0);
    assert!(!sink.flushing());
}

#[test]
fn write_appends_and_reports_length() {
    let mut sink = FrameSink::new();
    assert_eq!(sink.write(b"abc").unwrap(), 3);
    assert_eq!(sink.write(b"").unwrap(), 0);
    assert_eq!(sink.write(b"de").unwrap(), 2);
    assert_eq!(sink.pending_len(), 5);
    assert!(!sink.flushing());
}

#[test]
fn send_without_flush_hands_over_nothing() {
    let mut sink = FrameSink::new();
    sink.write_all(b"frame").unwrap();
    assert_eq!(sink.take_for_send(), None);
    assert_eq!(sink.pending_len(), 5);
}

#[test]
fn flushed_writes_are_sent_once_in_order() {
    let mut sink = FrameSink::new();
    sink.write_all(b"hello ").unwrap();
    sink.write_all(b"world").unwrap();
    sink.flush().unwrap();
    assert!(sink.flushing());
    assert_eq!(sink.take_for_send(), Some(b"hello world".to_vec()));
    assert!(!sink.flushing());
    assert_eq!(sink.pending_len(), 0);
    assert_eq!(sink.take_for_send(), None);
    sink.write_all(b"next").unwrap();
    sink.flush().unwrap();
    assert_eq!(sink.take_for_send(), Some(b"next".to_vec()));
}

#[test]
fn flush_with_nothing_written_sends_empty_frame() {
    let mut sink = FrameSink::new();
    sink.flush().unwrap();
    assert_eq!(sink.take_for_send(), Some(Vec::new()));
    assert!(!sink.flushing());
}

#[test]
fn background_take_hands_over_unflushed_bytes() {
    let mut sink = FrameSink::new();
    assert_eq!(sink.take_for_background(), None);
    sink.write_all(b"\x1b[?1049l").unwrap();
    assert_eq!(sink.take_for_background(), Some(b"\x1b[?1049l".to_vec()));
    assert_eq!(sink.pending_len(), 0);
    assert_eq!(sink.take_for_background(), None);
}

#[test]
fn background_take_clears_flush_request() {
    let mut sink = FrameSink::new();
    sink.write_all(b"x").unwrap();
    sink.flush().unwrap();
    assert_eq!(sink.take_for_background(), Some(b"x".to_vec()));
    assert!(!sink.flushing());
    assert_eq!(sink.take_for_send(), None);
}

#[test]
fn background_take_of_empty_sink_keeps_flush_request() {
    let mut sink = FrameSink::new();
    sink.flush().unwrap();
    assert_eq!(sink.take_for_background(), None);
    assert!(sink.flushing());
}
