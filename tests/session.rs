use pixel_canvas::canvas::PixelEdit;
use pixel_canvas::error::CanvasError;
use pixel_canvas::session::{bridge_step, BridgeAction, BridgeEvent, Session, SessionAction, SessionEvent, SessionState};

fn teardowns(actions: &[SessionAction]) -> usize {
    actions.iter().filter(|a| matches!(a, SessionAction::Teardown(_))).count()
}

#[test]
fn session_opens_with_keys() {
    let s = Session::open("7".to_string());
    assert_eq!(s.image_key, "server:7:image");
    assert_eq!(s.pubsub_key, "server:7:pubsub");
    assert_eq!(s.state, SessionState::Open);
    assert!(!s.is_closed());
}

#[test]
fn session_writes_decoded_edits() {
    let mut s = Session::open("7".to_string());
    assert!(matches!(s.on_event(SessionEvent::Started), SessionAction::InitCanvas));
    assert_eq!(s.state, SessionState::Reading);
    match s.on_event(SessionEvent::Frame(vec![0, 5, 0, 3, 42])) {
        SessionAction::Write(e) => assert_eq!(e, PixelEdit { x: 5, y: 3, color: 42 }),
        _ => panic!("a valid frame must be written"),
    }
    // an edit outside the canvas is still handed on; the store rejects it
    assert!(matches!(s.on_event(SessionEvent::Frame(vec![0xFF, 0xFF, 0, 0, 1])), SessionAction::Write(_)));
    assert_eq!(s.state, SessionState::Reading);
}

#[test]
fn short_frame_closes_session() {
    let mut s = Session::open("7".to_string());
    s.on_event(SessionEvent::Started);
    match s.on_event(SessionEvent::Frame(vec![0, 5, 0])) {
        SessionAction::Teardown(e) => assert_eq!(e, CanvasError::ProtocolError),
        _ => panic!("a short frame must end the session"),
    }
    assert!(s.is_closed());
}

#[test]
fn teardown_happens_once() {
    let mut s = Session::open("7".to_string());
    let mut actions = Vec::new();
    actions.push(s.on_event(SessionEvent::Started));
    actions.push(s.on_event(SessionEvent::Frame(vec![0, 1, 0, 1, 1])));
    actions.push(s.on_event(SessionEvent::PeerClosed));
    actions.push(s.on_event(SessionEvent::TransportFailed));
    actions.push(s.on_event(SessionEvent::Frame(vec![0, 1, 0, 1, 1])));
    assert_eq!(teardowns(&actions), 1);
    assert!(matches!(actions[2], SessionAction::Teardown(CanvasError::TransportError)));
    assert!(matches!(actions[4], SessionAction::Idle));
}

#[test]
fn transport_failure_closes_session() {
    let mut s = Session::open("7".to_string());
    s.on_event(SessionEvent::Started);
    assert!(matches!(s.on_event(SessionEvent::TransportFailed), SessionAction::Teardown(CanvasError::TransportError)));
    assert!(s.is_closed());
}

#[test]
fn close_before_start_tears_down() {
    let mut s = Session::open("7".to_string());
    assert!(matches!(s.on_event(SessionEvent::PeerClosed), SessionAction::Teardown(CanvasError::TransportError)));
    assert!(s.is_closed());
}

#[test]
fn bridge_stops_when_cancelled() {
    assert_eq!(bridge_step(true, &BridgeEvent::Notification), BridgeAction::Stop);
    assert_eq!(bridge_step(true, &BridgeEvent::WaitElapsed), BridgeAction::Stop);
    assert_eq!(bridge_step(false, &BridgeEvent::Notification), BridgeAction::Forward);
    assert_eq!(bridge_step(false, &BridgeEvent::WaitElapsed), BridgeAction::Wait);
    assert_eq!(bridge_step(false, &BridgeEvent::Failed), BridgeAction::Stop);
}

#[test]
fn store_failure_at_open_ends_session() {
    let mut s = Session::open("7".to_string());
    assert!(matches!(s.on_event(SessionEvent::StoreFailed), SessionAction::Teardown(CanvasError::StoreUnavailable)));
    assert!(s.is_closed());
    assert!(matches!(s.on_event(SessionEvent::Started), SessionAction::Idle));
}

#[test]
fn canvas_init_failure_ends_session() {
    let mut s = Session::open("7".to_string());
    assert!(matches!(s.on_event(SessionEvent::Started), SessionAction::InitCanvas));
    assert!(matches!(s.on_event(SessionEvent::StoreFailed), SessionAction::Teardown(CanvasError::StoreUnavailable)));
    assert!(s.is_closed());
}

#[test]
fn control_frames_are_ignored() {
    let mut s = Session::open("7".to_string());
    assert!(matches!(s.on_event(SessionEvent::Control), SessionAction::Idle));
    assert_eq!(s.state, SessionState::Open);
    s.on_event(SessionEvent::Started);
    assert!(matches!(s.on_event(SessionEvent::Control), SessionAction::Idle));
    assert_eq!(s.state, SessionState::Reading);
}

#[test]
fn frame_before_start_is_a_protocol_error() {
    let mut s = Session::open("7".to_string());
    assert!(matches!(s.on_event(SessionEvent::Frame(vec![0, 1])), SessionAction::Teardown(CanvasError::ProtocolError)));
    assert!(s.is_closed());
}

#[test]
fn frames_after_short_frame_are_not_written() {
    let mut s = Session::open("7".to_string());
    s.on_event(SessionEvent::Started);
    assert!(matches!(s.on_event(SessionEvent::Frame(vec![0, 5, 0, 3, 42])), SessionAction::Write(_)));
    assert!(matches!(s.on_event(SessionEvent::Frame(vec![0, 5])), SessionAction::Teardown(CanvasError::ProtocolError)));
    assert!(matches!(s.on_event(SessionEvent::Frame(vec![0, 5, 0, 3, 42])), SessionAction::Idle));
}
