use ptymux::reader::{
    decode_chunk, reader_poll, run_reader, ReaderEvent, ReaderOutcome, ReaderStep,
};
use ptymux::session::PtyMessage;
use ptymux::writer::{run_writer, writer_step, WriterAction, EOF_SENTINEL};

#[test]
fn writer_writes_texts_in_call_order() {
    let queue = vec![
        PtyMessage::Write("a".to_string()),
        PtyMessage::Write("b".to_string()),
    ];
    let run = run_writer(&queue);
    assert_eq!(run.output, b"ab".to_vec());
    assert!(!run.interrupted);
    assert_eq!(run.consumed, 2);
}

#[test]
fn writer_stops_at_interrupt_with_sentinel() {
    let queue = vec![
        PtyMessage::Write("hi".to_string()),
        PtyMessage::Interrupt,
        PtyMessage::Write("late".to_string()),
    ];
    let run = run_writer(&queue);
    assert_eq!(run.output, vec![b'h', b'i', EOF_SENTINEL]);
    assert!(run.interrupted);
    assert_eq!(run.consumed, 2);
}

#[test]
fn writer_ignores_geometry_messages() {
    let queue = vec![PtyMessage::Resize(40, 120), PtyMessage::Write("a".to_string())];
    let run = run_writer(&queue);
    assert_eq!(run.output, b"a".to_vec());
    assert!(!run.interrupted);
    assert_eq!(run.consumed, 2);
}

#[test]
fn writer_on_empty_queue_writes_nothing() {
    let queue: Vec<PtyMessage> = vec![];
    let run = run_writer(&queue);
    assert!(run.output.is_empty());
    assert!(!run.interrupted);
    assert_eq!(run.consumed, 0);
}

#[test]
fn reader_with_no_observations_reads_on() {
    let events: Vec<ReaderEvent> = vec![];
    let run = run_reader(&events, 24, 80);
    assert!(run.emitted.is_empty());
    assert_eq!(run.outcome, ReaderOutcome::Reading);
    assert_eq!((run.rows, run.cols), (24, 80));
}

#[test]
fn writer_step_maps_each_message() {
    match writer_step(&PtyMessage::Write("text".to_string())) {
        WriterAction::Data(d) => assert_eq!(d, "text"),
        _ => panic!("a write message must become data"),
    }
    assert!(matches!(writer_step(&PtyMessage::Interrupt), WriterAction::Shutdown));
    assert!(matches!(writer_step(&PtyMessage::Resize(1, 1)), WriterAction::Skip));
}

#[test]
fn decode_chunk_decodes_multibyte_text() {
    let euro = vec![0xE2u8, 0x82, 0xAC];
    let text = decode_chunk(&euro).unwrap();
    assert_eq!(text, "\u{20AC}");
    assert_eq!(text.len(), 3);
    assert_eq!(text.chars().count(), 1);
}

#[test]
fn decode_chunk_rejects_malformed_bytes() {
    let bad = vec![0xFFu8];
    match decode_chunk(&bad) {
        Err(e) => assert_eq!(e.error_type(), "ReadError"),
        Ok(_) => panic!("malformed bytes must not decode"),
    }
}

#[test]
fn reader_poll_maps_each_check() {
    assert!(matches!(reader_poll(None), ReaderStep::Read));
    assert!(matches!(reader_poll(Some(&PtyMessage::Interrupt)), ReaderStep::Stop));
    assert!(matches!(
        reader_poll(Some(&PtyMessage::Resize(40, 120))),
        ReaderStep::Resize(40, 120)
    ));
    assert!(matches!(
        reader_poll(Some(&PtyMessage::Write("x".to_string()))),
        ReaderStep::Read
    ));
}

#[test]
fn reader_emits_in_order_and_stops_at_interrupt() {
    let events = vec![
        ReaderEvent::Chunk(b"one".to_vec()),
        ReaderEvent::Chunk(b"two".to_vec()),
        ReaderEvent::Control(PtyMessage::Interrupt),
        ReaderEvent::Chunk(b"three".to_vec()),
    ];
    let run = run_reader(&events, 24, 80);
    assert_eq!(run.emitted, vec!["one".to_string(), "two".to_string()]);
    assert_eq!(run.outcome, ReaderOutcome::Stopped);
    assert_eq!((run.rows, run.cols), (24, 80));
}

#[test]
fn reader_applies_queued_geometry() {
    let events = vec![
        ReaderEvent::Control(PtyMessage::Resize(40, 120)),
        ReaderEvent::Chunk(b"w".to_vec()),
    ];
    let run = run_reader(&events, 24, 80);
    assert_eq!((run.rows, run.cols), (40, 120));
    assert_eq!(run.outcome, ReaderOutcome::Reading);
    assert_eq!(run.emitted, vec!["w".to_string()]);
}

#[test]
fn reader_dies_on_malformed_chunk() {
    let events = vec![
        ReaderEvent::Chunk(b"good".to_vec()),
        ReaderEvent::Chunk(vec![0xFFu8]),
        ReaderEvent::Chunk(b"never".to_vec()),
    ];
    let run = run_reader(&events, 24, 80);
    assert_eq!(run.emitted, vec!["good".to_string()]);
    assert_eq!(run.outcome, ReaderOutcome::Failed);
}
