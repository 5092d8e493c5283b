use ptymux::errors::PtyError;
use ptymux::session::{PtyMessage, SessionState};
use ptymux::table::{create, destroy, install, resize, ApplicationState, CreateStep};

#[test]
fn create_then_install_inserts_running_session() {
    let mut state = ApplicationState::create().unwrap();
    assert!(matches!(create(&mut state, 1, 24, 80), CreateStep::NeedsSpawn));
    assert!(state.sessions.is_empty());
    assert_eq!(install(&mut state, 1, 24, 80), 1);
    assert_eq!(state.sessions.len(), 1);
    let session = state.sessions.get(&1).unwrap();
    assert_eq!(session.state, SessionState::Running);
    assert_eq!(session.rows, 24);
    assert_eq!(session.cols, 80);
    assert!(session.write_queue.is_empty());
    assert!(session.read_queue.is_empty());
}

#[test]
fn create_existing_attaches_without_second_session() {
    let mut state = ApplicationState::create().unwrap();
    create(&mut state, 7, 24, 80);
    install(&mut state, 7, 24, 80);
    assert!(matches!(create(&mut state, 7, 40, 120), CreateStep::Attached));
    assert_eq!(state.sessions.len(), 1);
    let session = state.sessions.get(&7).unwrap();
    assert_eq!(session.rows, 40);
    assert_eq!(session.cols, 120);
    assert!(matches!(session.read_queue.last(), Some(PtyMessage::Resize(40, 120))));
    match session.write_queue.last() {
        Some(PtyMessage::Write(nudge)) => assert_eq!(nudge, "\n"),
        _ => panic!("expected a newline nudge"),
    }
}

#[test]
fn write_enqueues_in_call_order() {
    let mut state = ApplicationState::create().unwrap();
    create(&mut state, 1, 24, 80);
    install(&mut state, 1, 24, 80);
    assert!(ptymux::table::write(&mut state, 1, "a".to_string()).is_ok());
    assert!(ptymux::table::write(&mut state, 1, "b".to_string()).is_ok());
    let queue = &state.sessions.get(&1).unwrap().write_queue;
    assert_eq!(queue.len(), 2);
    match (&queue[0], &queue[1]) {
        (PtyMessage::Write(first), PtyMessage::Write(second)) => {
            assert_eq!(first, "a");
            assert_eq!(second, "b");
        },
        _ => panic!("expected two queued writes"),
    }
    assert!(state.sessions.get(&1).unwrap().read_queue.is_empty());
}

#[test]
fn resize_records_and_queues_geometry() {
    let mut state = ApplicationState::create().unwrap();
    create(&mut state, 1, 24, 80);
    install(&mut state, 1, 24, 80);
    assert!(resize(&mut state, 1, 40, 120).is_ok());
    let session = state.sessions.get(&1).unwrap();
    assert_eq!((session.rows, session.cols), (40, 120));
    assert!(matches!(session.read_queue.last(), Some(PtyMessage::Resize(40, 120))));
    assert!(session.write_queue.is_empty());
}

#[test]
fn resize_accepts_the_largest_geometry() {
    let mut state = ApplicationState::create().unwrap();
    create(&mut state, 1, 24, 80);
    install(&mut state, 1, 24, 80);
    assert!(resize(&mut state, 1, u16::MAX, u16::MAX).is_ok());
    let session = state.sessions.get(&1).unwrap();
    assert_eq!((session.rows, session.cols), (65535, 65535));
}

#[test]
fn write_on_missing_key_is_not_found() {
    let mut state = ApplicationState::create().unwrap();
    match ptymux::table::write(&mut state, 9, "x".to_string()) {
        Err(e) => assert_eq!(e.error_type(), "NotFound"),
        Ok(()) => panic!("write on a missing key must fail"),
    }
}

#[test]
fn resize_on_missing_key_is_not_found() {
    let mut state = ApplicationState::create().unwrap();
    match resize(&mut state, 9, 40, 120) {
        Err(e) => assert_eq!(e.error_type(), "NotFound"),
        Ok(()) => panic!("resize on a missing key must fail"),
    }
}

#[test]
fn destroy_on_missing_key_is_not_found() {
    let mut state = ApplicationState::create().unwrap();
    match destroy(&mut state, 9) {
        Err(e) => assert_eq!(e.error_type(), "NotFound"),
        Ok(_) => panic!("destroy on a missing key must fail"),
    }
}

#[test]
fn destroy_removes_session_and_queues_both_interrupts() {
    let mut state = ApplicationState::create().unwrap();
    create(&mut state, 1, 24, 80);
    install(&mut state, 1, 24, 80);
    ptymux::table::write(&mut state, 1, "x".to_string()).unwrap();
    let drained = destroy(&mut state, 1).unwrap();
    assert!(state.sessions.is_empty());
    assert_eq!(drained.state, SessionState::Draining);
    assert!(matches!(drained.read_queue.last(), Some(PtyMessage::Interrupt)));
    assert_eq!(drained.write_queue.len(), 2);
    assert!(matches!(drained.write_queue[0], PtyMessage::Write(_)));
    assert!(matches!(drained.write_queue[1], PtyMessage::Interrupt));
    let finished = drained.terminated();
    assert_eq!(finished.state, SessionState::Terminated);
}

#[test]
fn destroy_twice_reports_not_found_once_gone() {
    let mut state = ApplicationState::create().unwrap();
    create(&mut state, 1, 24, 80);
    install(&mut state, 1, 24, 80);
    assert!(destroy(&mut state, 1).is_ok());
    match destroy(&mut state, 1) {
        Err(PtyError::NotFound(_)) => {},
        _ => panic!("a second destroy must report NotFound"),
    }
}
