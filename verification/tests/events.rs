use node_boot::supervisor::{StreamEnd, StreamId, Supervisor};

#[test]
fn combined_log_holds_every_line_tagged_in_arrival_order() {
    let mut sup = Supervisor::new();
    sup.record_line(StreamId::Stdout, "out 1".to_string());
    sup.record_line(StreamId::Stderr, "err 1".to_string());
    sup.record_line(StreamId::Stdout, "out 2".to_string());
    sup.record_line(StreamId::Stdout, "out 3".to_string());
    sup.record_line(StreamId::Stderr, "err 2".to_string());
    sup.end_stream(StreamId::Stdout, StreamEnd::Eof);
    sup.end_stream(StreamId::Stderr, StreamEnd::Eof);
    assert!(sup.is_closed());

    let expected = [
        (StreamId::Stdout, "out 1"),
        (StreamId::Stderr, "err 1"),
        (StreamId::Stdout, "out 2"),
        (StreamId::Stdout, "out 3"),
        (StreamId::Stderr, "err 2"),
    ];
    let mut delivered = 0;
    while let Some(event) = sup.take_next() {
        assert_eq!(event.stream, expected[delivered].0);
        assert_eq!(event.line, expected[delivered].1);
        delivered += 1;
    }
    // Exactly N + M events, then the sequence ends.
    assert_eq!(delivered, 5);
    assert!(sup.take_next().is_none());
    assert!(sup.is_drained());
}

#[test]
fn one_failed_stream_does_not_end_the_other() {
    let mut sup = Supervisor::new();
    sup.record_line(StreamId::Stdout, "before".to_string());
    sup.end_stream(StreamId::Stdout, StreamEnd::ReadError);
    // Stderr still runs and still delivers.
    sup.record_line(StreamId::Stderr, "after".to_string());
    let first = sup.take_next().unwrap();
    assert_eq!(first.stream, StreamId::Stdout);
    assert_eq!(first.line, "before");
    let second = sup.take_next().unwrap();
    assert_eq!(second.stream, StreamId::Stderr);
    assert_eq!(second.line, "after");
    assert!(!sup.is_closed());
}

#[test]
fn teardown_ends_both_streams_and_keeps_buffered_events() {
    let mut sup = Supervisor::new();
    sup.record_line(StreamId::Stdout, "buffered".to_string());
    sup.terminate();
    assert!(sup.is_closed());
    // Nothing already read is lost.
    let event = sup.take_next().unwrap();
    assert_eq!(event.stream, StreamId::Stdout);
    assert_eq!(event.line, "buffered");
    assert!(sup.take_next().is_none());
    assert!(sup.is_drained());
}

#[test]
fn teardown_is_idempotent() {
    let mut sup = Supervisor::new();
    sup.record_line(StreamId::Stderr, "kept".to_string());
    sup.end_stream(StreamId::Stderr, StreamEnd::ReadError);
    sup.terminate();
    sup.terminate();
    assert!(sup.is_closed());
    let event = sup.take_next().unwrap();
    assert_eq!(event.line, "kept");
    assert!(sup.take_next().is_none());
}

#[test]
fn fresh_supervisor_delivers_nothing() {
    let mut sup = Supervisor::new();
    assert!(!sup.is_closed());
    assert!(sup.take_next().is_none());
    assert!(!sup.is_drained());
}
