use easy_ws::channel::CommandChannel;
use easy_ws::channel::EasyWsCommand;
use easy_ws::errors::EasyWsError;

#[test]
fn channel_starts_open_and_empty() {
    let mut c = CommandChannel::new();
    assert_eq!(c.len(), 0);
    assert!(!c.is_closed());
    assert_eq!(c.poll(), None);
}

#[test]
fn channel_delivers_in_submission_order() {
    let mut c = CommandChannel::new();
    c.submit(EasyWsCommand::Send(String::from("a"))).unwrap();
    c.submit(EasyWsCommand::Send(String::from("b"))).unwrap();
    c.submit(EasyWsCommand::Disconnect).unwrap();
    assert_eq!(c.len(), 3);
    assert_eq!(c.poll(), Some(EasyWsCommand::Send(String::from("a"))));
    assert_eq!(c.poll(), Some(EasyWsCommand::Send(String::from("b"))));
    assert_eq!(c.poll(), Some(EasyWsCommand::Disconnect));
    assert_eq!(c.poll(), None);
}

#[test]
fn closed_channel_refuses_submissions() {
    let mut c = CommandChannel::new();
    c.submit(EasyWsCommand::Send(String::from("kept"))).unwrap();
    c.close();
    assert!(c.is_closed());
    assert_eq!(
        c.submit(EasyWsCommand::Send(String::from("lost"))),
        Err(EasyWsError::ChannelClosed)
    );
    assert_eq!(c.submit(EasyWsCommand::Disconnect), Err(EasyWsError::ChannelClosed));
    // Pending commands submitted before the close still drain in order.
    assert_eq!(c.poll(), Some(EasyWsCommand::Send(String::from("kept"))));
    assert_eq!(c.poll(), None);
}
