use std::io::Read;

use portable_pty::{native_pty_system, CommandBuilder, PtySize};
use ptymux::reader::{decode_chunk, run_reader, ReaderEvent, ReaderOutcome};
use ptymux::session::PtyMessage;
use ptymux::table::{create, destroy, install, ApplicationState, CreateStep};
use ptymux::writer::{run_writer, EOF_SENTINEL};

#[test]
fn session_lifecycle_scenario() {
    let mut state = ApplicationState::create().unwrap();
    assert!(matches!(create(&mut state, 1, 24, 80), CreateStep::NeedsSpawn));
    assert_eq!(install(&mut state, 1, 24, 80), 1);

    let events = vec![ReaderEvent::Chunk(b"hi\n".to_vec())];
    let run = run_reader(&events, 24, 80);
    assert_eq!(run.emitted, vec!["hi\n".to_string()]);
    assert_eq!(run.outcome, ReaderOutcome::Reading);

    let drained = destroy(&mut state, 1).unwrap();
    assert!(matches!(drained.read_queue.last(), Some(PtyMessage::Interrupt)));
    let writes = run_writer(&drained.write_queue);
    assert!(writes.interrupted);
    assert_eq!(writes.output.last(), Some(&EOF_SENTINEL));

    match ptymux::table::write(&mut state, 1, "x".to_string()) {
        Err(e) => assert_eq!(e.error_type(), "NotFound"),
        Ok(()) => panic!("write after destroy must report NotFound"),
    }
}

#[test]
fn echo_through_a_real_terminal() {
    let pty_system = native_pty_system();
    let pair = pty_system
        .openpty(PtySize { rows: 24, cols: 80, pixel_width: 0, pixel_height: 0 })
        .unwrap();
    let mut cmd = CommandBuilder::new("sh");
    cmd.arg("-c");
    cmd.arg("echo hi");
    let mut child = pair.slave.spawn_command(cmd).unwrap();
    drop(pair.slave);
    let mut reader = pair.master.try_clone_reader().unwrap();

    let mut seen = String::new();
    let mut buf = [0u8; 512];
    loop {
        match reader.read(&mut buf) {
            Ok(0) => break,
            Ok(n) => {
                let chunk = buf[..n].to_vec();
                seen.push_str(&decode_chunk(&chunk).unwrap());
                if seen.contains("hi") {
                    break;
                }
            },
            Err(_) => break,
        }
    }
    let _ = child.wait();
    assert!(seen.contains("hi"));
}
