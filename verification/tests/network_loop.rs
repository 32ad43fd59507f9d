use easy_ws::dispatch::CallbackInvocation;
use easy_ws::errors::EasyWsError;
use easy_ws::handle::SimpleWebSocket;
use easy_ws::network::LoopAction;
use easy_ws::network::TransportEvent;
use easy_ws::state::EasyWsConnectionState;

fn fresh() -> SimpleWebSocket {
    SimpleWebSocket::new(String::from("ws://x"), 10000, 1000)
}

#[test]
fn failed_open_reports_error_once_and_never_connects() {
    let mut h = fresh();
    h.on_connect();
    h.on_error();
    h.connect().unwrap();
    let invocations = h.handle_transport_event(TransportEvent::OpenFailed(String::from(
        "connection refused",
    )));
    // The error callback fires exactly once; the connect callback never does.
    assert_eq!(
        invocations,
        vec![CallbackInvocation::OnError(String::from("connection refused"))]
    );
    assert_eq!(h.state(), EasyWsConnectionState::Disconnected);
    // The cycle is over: later transport events are ignored.
    let later = h.handle_transport_event(TransportEvent::Opened);
    assert_eq!(later, Vec::new());
    assert_eq!(h.state(), EasyWsConnectionState::Disconnected);
}

#[test]
fn reaching_connected_invokes_on_connect_exactly_once() {
    let mut h = fresh();
    h.on_connect();
    h.on_message();
    h.connect().unwrap();
    let invocations = h.handle_transport_event(TransportEvent::Opened);
    assert_eq!(invocations, vec![CallbackInvocation::OnConnect]);
    assert_eq!(h.state(), EasyWsConnectionState::Connected);
    // Later traffic in the same cycle never repeats the connect callback.
    let more = h.handle_transport_event(TransportEvent::Message(String::from("hello")));
    assert_eq!(more, vec![CallbackInvocation::OnMessage(String::from("hello"))]);
    let spurious = h.handle_transport_event(TransportEvent::Opened);
    assert_eq!(spurious, Vec::new());
}

#[test]
fn send_then_disconnect_reaches_transport_in_order() {
    let mut h = fresh();
    h.connect().unwrap();
    let _ = h.handle_transport_event(TransportEvent::Opened);
    h.send(String::from("ping")).unwrap();
    h.disconnect().unwrap();
    let actions = h.drain_commands();
    assert_eq!(
        actions,
        vec![LoopAction::SendText(String::from("ping")), LoopAction::CloseTransport]
    );
}

#[test]
fn commands_behind_a_disconnect_are_not_executed() {
    let mut h = fresh();
    h.connect().unwrap();
    let _ = h.handle_transport_event(TransportEvent::Opened);
    h.send(String::from("first")).unwrap();
    h.disconnect().unwrap();
    h.send(String::from("late")).unwrap();
    let actions = h.drain_commands();
    assert_eq!(
        actions,
        vec![LoopAction::SendText(String::from("first")), LoopAction::CloseTransport]
    );
    // The late submission stays queued; the closing cycle will not run it.
    assert_eq!(h.channel.len(), 1);
}

#[test]
fn racing_closures_invoke_on_disconnect_once() {
    let mut h = fresh();
    h.on_disconnect();
    h.connect().unwrap();
    let _ = h.handle_transport_event(TransportEvent::Opened);
    h.disconnect().unwrap();
    let _ = h.drain_commands();
    // The transport confirms the commanded closure...
    let first = h.handle_transport_event(TransportEvent::Closed);
    assert_eq!(first, vec![CallbackInvocation::OnDisconnect]);
    assert_eq!(h.state(), EasyWsConnectionState::Disconnected);
    // ...and a racing transport-side closure arriving afterwards is ignored.
    let second = h.handle_transport_event(TransportEvent::Closed);
    assert_eq!(second, Vec::new());
    assert_eq!(h.state(), EasyWsConnectionState::Disconnected);
}

#[test]
fn transport_initiated_closure_invokes_on_disconnect_once() {
    let mut h = fresh();
    h.on_disconnect();
    h.connect().unwrap();
    let _ = h.handle_transport_event(TransportEvent::Opened);
    let invocations = h.handle_transport_event(TransportEvent::Closed);
    assert_eq!(invocations, vec![CallbackInvocation::OnDisconnect]);
    assert_eq!(h.state(), EasyWsConnectionState::Disconnected);
}

#[test]
fn steady_state_error_is_reported_but_not_fatal() {
    let mut h = fresh();
    h.on_error();
    h.connect().unwrap();
    let _ = h.handle_transport_event(TransportEvent::Opened);
    let invocations = h.handle_transport_event(TransportEvent::Error(String::from("oops")));
    assert_eq!(invocations, vec![CallbackInvocation::OnError(String::from("oops"))]);
    assert_eq!(h.state(), EasyWsConnectionState::Connected);
}

#[test]
fn unregistered_slots_drop_loop_events_silently() {
    let mut h = fresh();
    h.connect().unwrap();
    let opened = h.handle_transport_event(TransportEvent::Opened);
    assert_eq!(opened, Vec::new());
    let message = h.handle_transport_event(TransportEvent::Message(String::from("hi")));
    assert_eq!(message, Vec::new());
    let closed = h.handle_transport_event(TransportEvent::Closed);
    assert_eq!(closed, Vec::new());
    assert_eq!(h.state(), EasyWsConnectionState::Disconnected);
}

#[test]
fn cycle_end_closes_the_command_channel() {
    let mut h = fresh();
    h.connect().unwrap();
    let _ = h.handle_transport_event(TransportEvent::Opened);
    let _ = h.handle_transport_event(TransportEvent::Closed);
    assert!(h.channel.is_closed());
    assert_eq!(h.send(String::from("x")), Err(EasyWsError::NotConnected));
}
