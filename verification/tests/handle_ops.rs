use easy_ws::errors::EasyWsError;
use easy_ws::handle::SimpleWebSocket;
use easy_ws::network::TransportEvent;
use easy_ws::state::EasyWsConnectionState;

fn fresh() -> SimpleWebSocket {
    SimpleWebSocket::new(String::from("ws://example"), 10000, 1000)
}

#[test]
fn send_on_never_connected_handle_fails() {
    let mut h = fresh();
    assert_eq!(h.send(String::from("x")), Err(EasyWsError::NotConnected));
    // Nothing was queued and nothing was started.
    assert_eq!(h.channel.len(), 0);
    assert_eq!(h.state(), EasyWsConnectionState::Disconnected);
}

#[test]
fn disconnect_needs_a_prior_successful_connect() {
    let mut h = fresh();
    assert_eq!(h.disconnect(), Err(EasyWsError::NotConnected));
    assert_eq!(h.channel.len(), 0);
    assert_eq!(h.state(), EasyWsConnectionState::Disconnected);
}

#[test]
fn send_while_connecting_fails() {
    let mut h = fresh();
    h.connect().unwrap();
    assert_eq!(h.state(), EasyWsConnectionState::Connecting);
    assert_eq!(h.send(String::from("early")), Err(EasyWsError::NotConnected));
    assert_eq!(h.channel.len(), 0);
}

#[test]
fn connect_twice_fails_with_already_connected() {
    let mut h = fresh();
    h.connect().unwrap();
    assert_eq!(h.connect(), Err(EasyWsError::AlreadyConnected));
    let _ = h.handle_transport_event(TransportEvent::Opened);
    assert_eq!(h.state(), EasyWsConnectionState::Connected);
    assert_eq!(h.connect(), Err(EasyWsError::AlreadyConnected));
}

#[test]
fn connect_is_possible_again_after_a_cycle_ends() {
    let mut h = fresh();
    h.connect().unwrap();
    let _ = h.handle_transport_event(TransportEvent::Opened);
    let _ = h.handle_transport_event(TransportEvent::Closed);
    assert_eq!(h.state(), EasyWsConnectionState::Disconnected);
    assert_eq!(h.connect(), Ok(()));
    assert_eq!(h.state(), EasyWsConnectionState::Connecting);
}

#[test]
fn send_while_connected_queues_the_message() {
    let mut h = fresh();
    h.connect().unwrap();
    let _ = h.handle_transport_event(TransportEvent::Opened);
    assert_eq!(h.send(String::from("ping")), Ok(()));
    assert_eq!(h.channel.len(), 1);
}

#[test]
fn send_with_closed_channel_surfaces_not_connected() {
    let mut h = fresh();
    h.connect().unwrap();
    let _ = h.handle_transport_event(TransportEvent::Opened);
    h.channel.close();
    assert_eq!(h.send(String::from("late")), Err(EasyWsError::NotConnected));
    assert_eq!(h.channel.len(), 0);
}

#[test]
fn disconnect_after_connect_queues_the_command() {
    let mut h = fresh();
    h.connect().unwrap();
    assert_eq!(h.disconnect(), Ok(()));
    assert_eq!(h.channel.len(), 1);
}

#[test]
fn callback_registration_fills_the_slots() {
    let mut h = fresh();
    h.on_connect();
    h.on_disconnect();
    h.on_message();
    h.on_error();
    assert!(h.dispatcher.callbacks.on_connect_set);
    assert!(h.dispatcher.callbacks.on_disconnect_set);
    assert!(h.dispatcher.callbacks.on_message_set);
    assert!(h.dispatcher.callbacks.on_error_set);
}
