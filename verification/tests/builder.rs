use easy_ws::handle::SimpleWebSocketBuilder;
use easy_ws::state::EasyWsConnectionState;

#[test]
fn builder_defaults() {
    let b = SimpleWebSocketBuilder::new(String::from("ws://example"));
    assert_eq!(b.timeout, 10000);
    assert_eq!(b.interval, 1000);
    let h = b.build();
    assert_eq!(h.state(), EasyWsConnectionState::Disconnected);
    assert_eq!(h.endpoint, "ws://example");
    assert_eq!(h.timeout_ms, 10000);
    assert_eq!(h.interval_ms, 1000);
}

#[test]
fn builder_chained_setters() {
    let mut b = SimpleWebSocketBuilder::new(String::from("ws://example"));
    b.with_timeout(2500).with_interval(250);
    let h = b.build();
    assert_eq!(h.endpoint, "ws://example");
    assert_eq!(h.timeout_ms, 2500);
    assert_eq!(h.interval_ms, 250);
}

#[test]
fn built_handle_is_idle() {
    let h = SimpleWebSocketBuilder::new(String::from("ws://example")).build();
    assert_eq!(h.state(), EasyWsConnectionState::Disconnected);
    assert_eq!(h.channel.len(), 0);
    assert!(!h.channel.is_closed());
    assert!(!h.dispatcher.callbacks.on_connect_set);
    assert!(!h.dispatcher.callbacks.on_disconnect_set);
    assert!(!h.dispatcher.callbacks.on_message_set);
    assert!(!h.dispatcher.callbacks.on_error_set);
}
