use pianki_supervisor::relay::{on_child_event, ChildEvent, ExitStatus, Origin};
use pianki_supervisor::supervisor::{ChildHandle, Supervisor};

#[test]
fn stdout_lines_are_logged_at_info_and_scanned() {
    let mut sup = Supervisor::new();
    assert!(sup.store_child(ChildHandle { pid: 5 }));
    let line = b"now serving http://localhost:9911 for you".to_vec();
    let action = on_child_event(&mut sup, ChildEvent::Stdout(line.clone()));
    let log = action.log.expect("stdout must be forwarded");
    assert_eq!(log.origin, Origin::Stdout);
    assert_eq!(log.text, line);
    assert_eq!(action.ready_port, Some(9911));
    assert!(action.exited.is_none());
    assert!(sup.has_child());
}

#[test]
fn plain_stdout_lines_announce_nothing() {
    let mut sup = Supervisor::new();
    let action = on_child_event(&mut sup, ChildEvent::Stdout(b"warming up".to_vec()));
    assert!(action.log.is_some());
    assert_eq!(action.ready_port, None);
}

#[test]
fn stderr_lines_are_logged_at_error_level() {
    let mut sup = Supervisor::new();
    assert!(sup.store_child(ChildHandle { pid: 5 }));
    let action = on_child_event(&mut sup, ChildEvent::Stderr(b"disk is slow".to_vec()));
    let log = action.log.expect("stderr must be forwarded");
    assert_eq!(log.origin, Origin::Stderr);
    assert_eq!(log.text, b"disk is slow".to_vec());
    assert_eq!(action.ready_port, None);
    assert!(action.exited.is_none());
    assert!(sup.has_child());
}

#[test]
fn termination_clears_the_slot_without_a_kill() {
    let mut sup = Supervisor::new();
    assert!(sup.store_child(ChildHandle { pid: 5 }));
    let status = ExitStatus { code: Some(1), signal: None };
    let action = on_child_event(&mut sup, ChildEvent::Terminated(status));
    assert!(action.log.is_none());
    assert_eq!(action.ready_port, None);
    assert_eq!(action.exited, Some(status));
    assert!(!sup.has_child());
    // A shutdown trigger that fires afterwards must not try to kill the
    // already-exited process.
    assert!(sup.stop().is_none());
}

#[test]
fn other_stream_events_are_ignored() {
    let mut sup = Supervisor::new();
    assert!(sup.store_child(ChildHandle { pid: 5 }));
    let action = on_child_event(&mut sup, ChildEvent::Other);
    assert!(action.log.is_none());
    assert_eq!(action.ready_port, None);
    assert!(action.exited.is_none());
    assert!(sup.has_child());
}
