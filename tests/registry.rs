use term_sessions::ssh_conn::SshConn;
use term_sessions::state::{AppState, OpenError, SessionEnum, SessionError};

#[test]
fn open_registers_a_fresh_id() {
    let mut s: AppState<u32> = AppState::new();
    let id = match s.open_local_pty(11, Ok(7)) {
        Ok(id) => id,
        Err(_) => panic!("open failed"),
    };
    assert!(s.contains(id));
    assert_eq!(s.len(), 1);
    assert!(matches!(s.write_target(id), Ok(&7)));
}

#[test]
fn ids_are_never_reused() {
    let mut s: AppState<u32> = AppState::new();
    let a = s.open_local_pty(100, Ok(1)).ok().unwrap();
    assert_eq!(a, 100);
    assert!(s.close_session(a).is_some());
    assert!(matches!(s.open_local_pty(a, Ok(2)), Err(OpenError::IdInUse)));
    let b = s.open_local_pty(101, Ok(2)).ok().unwrap();
    assert_ne!(a, b);
    // An identifier handed out before is refused even after its close.
    assert!(matches!(s.insert_session(a, Ok(SessionEnum::TypePty(3))), Err(OpenError::IdInUse)));
    assert!(!s.contains(a));
    assert_eq!(s.len(), 1);
}

#[test]
fn insert_session_with_chosen_id() {
    let mut s: AppState<u32> = AppState::new();
    assert!(matches!(s.insert_session(42, Ok(SessionEnum::TypePty(5))), Ok(42)));
    assert!(s.contains(42));
    assert!(matches!(s.write_target(42), Ok(&5)));
}

#[test]
fn spawn_failure_leaves_registry_unchanged() {
    let mut s: AppState<u32> = AppState::new();
    s.insert_session(1, Ok(SessionEnum::TypePty(10))).ok().unwrap();
    let before = s.len();
    match s.open_local_pty(2, Err("No such file or directory".to_string())) {
        Err(OpenError::Spawn(msg)) => assert_eq!(msg, "No such file or directory"),
        _ => panic!("expected a spawn error"),
    }
    assert_eq!(s.len(), before);
}

#[test]
fn write_to_unknown_id_is_not_found() {
    let s: AppState<u32> = AppState::new();
    assert!(matches!(s.write_target(12345), Err(SessionError::NotFound)));
}

#[test]
fn write_after_close_is_not_found() {
    let mut s: AppState<u32> = AppState::new();
    s.insert_session(9, Ok(SessionEnum::TypePty(1))).ok().unwrap();
    assert!(s.write_target(9).is_ok());
    s.close_session(9);
    assert!(matches!(s.write_target(9), Err(SessionError::NotFound)));
}

#[test]
fn close_is_idempotent() {
    let mut s: AppState<u32> = AppState::new();
    s.insert_session(3, Ok(SessionEnum::TypePty(30))).ok().unwrap();
    match s.close_session(3) {
        Some(SessionEnum::TypePty(p)) => assert_eq!(p, 30),
        _ => panic!("expected the backend back"),
    }
    assert!(s.close_session(3).is_none());
    assert!(!s.contains(3));
    assert!(s.close_session(777).is_none());
}

#[test]
fn two_sessions_are_routed_apart() {
    let mut s: AppState<&str> = AppState::new();
    let a = s.open_local_pty(1, Ok("first")).ok().unwrap();
    let b = s.open_local_pty(2, Ok("second")).ok().unwrap();
    assert_ne!(a, b);
    for _ in 0..3 {
        assert!(matches!(s.write_target(a), Ok(&"first")));
        assert!(matches!(s.write_target(b), Ok(&"second")));
    }
    s.close_session(a);
    assert!(matches!(s.write_target(b), Ok(&"second")));
}

#[test]
fn close_all_empties_registry() {
    let mut s: AppState<u32> = AppState::new();
    s.insert_session(1, Ok(SessionEnum::TypePty(1))).ok().unwrap();
    s.insert_session(2, Ok(SessionEnum::TypePty(2))).ok().unwrap();
    s.close_all();
    assert_eq!(s.len(), 0);
    assert!(matches!(s.insert_session(1, Ok(SessionEnum::TypePty(1))), Err(OpenError::IdInUse)));
}

#[test]
fn registry_refuses_a_session_id_twice() {
    let mut s: AppState<u32> = AppState::new();
    assert!(s.insert_session(5, Ok(SessionEnum::TypePty(1))).is_ok());
    assert!(matches!(s.insert_session(5, Ok(SessionEnum::TypePty(2))), Err(OpenError::IdInUse)));
    assert!(matches!(s.write_target(5), Ok(&1)));
}

#[test]
fn remote_session_write_is_unsupported() {
    let mut s: AppState<u32> = AppState::new();
    s.insert_session(8, Ok(SessionEnum::TypeSsh(SshConn {}))).ok().unwrap();
    assert!(s.contains(8));
    assert!(matches!(s.write_target(8), Err(SessionError::Unsupported)));
}

#[test]
fn write_outcomes() {
    assert!(matches!(AppState::<u32>::write_outcome(Ok(())), Ok(())));
    match AppState::<u32>::write_outcome(Err("Input/output error".to_string())) {
        Err(SessionError::WriteFailed(e)) => assert_eq!(e, "Input/output error"),
        _ => panic!("expected a write failure"),
    }
}
