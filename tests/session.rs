use data_service::session::{Inbound, Outbound, Session, SessionState};

#[test]
fn text_frame_is_echoed() {
    let mut s = Session::new();
    match s.handle(Inbound::Text("ping-text".to_string())) {
        Outbound::Text(t) => assert_eq!(t, "ping-text"),
        _ => panic!("expected a text echo"),
    }
    assert_eq!(s.state(), SessionState::Open);
}

#[test]
fn binary_frame_is_echoed() {
    let mut s = Session::new();
    match s.handle(Inbound::Binary(vec![1, 2, 3])) {
        Outbound::Binary(b) => assert_eq!(b, vec![1, 2, 3]),
        _ => panic!("expected a binary echo"),
    }
    assert_eq!(s.state(), SessionState::Open);
}

#[test]
fn control_frame_is_transparent() {
    let mut s = Session::new();
    assert!(matches!(s.handle(Inbound::Control), Outbound::Nothing));
    assert_eq!(s.state(), SessionState::Open);
}

#[test]
fn malformed_frame_closes_only_its_session() {
    let mut a = Session::new();
    let mut b = Session::new();
    assert!(matches!(a.handle(Inbound::Malformed("bad opcode".to_string())), Outbound::Stop));
    assert_eq!(a.state(), SessionState::Closing);
    assert_eq!(b.state(), SessionState::Open);
    match b.handle(Inbound::Text("ping-text".to_string())) {
        Outbound::Text(t) => assert_eq!(t, "ping-text"),
        _ => panic!("expected a text echo"),
    }
    a.finish();
    assert_eq!(a.state(), SessionState::Closed);
    assert_eq!(b.state(), SessionState::Open);
}

#[test]
fn close_frame_closes_session() {
    let mut s = Session::new();
    assert!(matches!(s.handle(Inbound::Close), Outbound::Stop));
    assert_eq!(s.state(), SessionState::Closed);
}

#[test]
fn closed_session_ignores_frames() {
    let mut s = Session::new();
    s.handle(Inbound::Close);
    assert!(matches!(s.handle(Inbound::Text("late".to_string())), Outbound::Nothing));
    assert_eq!(s.state(), SessionState::Closed);
}
