use easy_ws::errors::InvalidTransition;
use easy_ws::state::ConnectionStateMachine;
use easy_ws::state::EasyWsConnectionState;
use easy_ws::state::LifecycleEvent;

#[test]
fn machine_starts_disconnected() {
    let m = ConnectionStateMachine::new();
    assert_eq!(m.current(), EasyWsConnectionState::Disconnected);
}

#[test]
fn machine_full_connect_path() {
    let mut m = ConnectionStateMachine::new();
    assert_eq!(m.transition(LifecycleEvent::BeginConnect), Ok(()));
    assert_eq!(m.current(), EasyWsConnectionState::Connecting);
    assert_eq!(m.transition(LifecycleEvent::HandshakeStarted), Ok(()));
    assert_eq!(m.current(), EasyWsConnectionState::Handshake);
    assert_eq!(m.transition(LifecycleEvent::HandshakeComplete), Ok(()));
    assert_eq!(m.current(), EasyWsConnectionState::Connected);
    assert_eq!(m.transition(LifecycleEvent::Closed), Ok(()));
    assert_eq!(m.current(), EasyWsConnectionState::Disconnected);
}

#[test]
fn machine_regresses_on_failure_from_any_active_state() {
    let mut m = ConnectionStateMachine::new();
    m.transition(LifecycleEvent::BeginConnect).unwrap();
    assert_eq!(m.transition(LifecycleEvent::Failed(String::from("boom"))), Ok(()));
    assert_eq!(m.current(), EasyWsConnectionState::Disconnected);

    m.transition(LifecycleEvent::BeginConnect).unwrap();
    m.transition(LifecycleEvent::HandshakeStarted).unwrap();
    assert_eq!(m.transition(LifecycleEvent::Failed(String::from("boom"))), Ok(()));
    assert_eq!(m.current(), EasyWsConnectionState::Disconnected);

    m.transition(LifecycleEvent::BeginConnect).unwrap();
    m.transition(LifecycleEvent::HandshakeStarted).unwrap();
    m.transition(LifecycleEvent::HandshakeComplete).unwrap();
    assert_eq!(m.transition(LifecycleEvent::Closed), Ok(()));
    assert_eq!(m.current(), EasyWsConnectionState::Disconnected);
}

#[test]
fn machine_rejects_illegal_events() {
    let mut m = ConnectionStateMachine::new();
    assert_eq!(m.transition(LifecycleEvent::HandshakeStarted), Err(InvalidTransition));
    assert_eq!(m.transition(LifecycleEvent::HandshakeComplete), Err(InvalidTransition));
    assert_eq!(m.transition(LifecycleEvent::Closed), Err(InvalidTransition));
    assert_eq!(m.transition(LifecycleEvent::Failed(String::from("x"))), Err(InvalidTransition));
    assert_eq!(m.current(), EasyWsConnectionState::Disconnected);

    m.transition(LifecycleEvent::BeginConnect).unwrap();
    assert_eq!(m.transition(LifecycleEvent::BeginConnect), Err(InvalidTransition));
    assert_eq!(m.transition(LifecycleEvent::HandshakeComplete), Err(InvalidTransition));
    assert_eq!(m.current(), EasyWsConnectionState::Connecting);

    m.transition(LifecycleEvent::HandshakeStarted).unwrap();
    m.transition(LifecycleEvent::HandshakeComplete).unwrap();
    assert_eq!(m.transition(LifecycleEvent::BeginConnect), Err(InvalidTransition));
    assert_eq!(m.transition(LifecycleEvent::HandshakeStarted), Err(InvalidTransition));
    assert_eq!(m.current(), EasyWsConnectionState::Connected);
}
