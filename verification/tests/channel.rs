use pragma_sdk::ws::channel::{Channel, Recv};

#[test]
fn channel_is_first_in_first_out() {
    let mut channel = Channel::new();
    assert!(channel.is_empty());
    for n in 0..10u32 {
        assert_eq!(channel.send(n), Ok(()));
    }
    assert_eq!(channel.len(), 10);
    for n in 0..10u32 {
        assert_eq!(channel.try_recv(), Recv::Message(n));
    }
    assert_eq!(channel.try_recv(), Recv::Pending);
    assert!(channel.is_empty());
}

#[test]
fn channel_interleaves_sends_and_receives() {
    let mut channel = Channel::new();
    channel.send('a').unwrap();
    channel.send('b').unwrap();
    assert_eq!(channel.try_recv(), Recv::Message('a'));
    channel.send('c').unwrap();
    assert_eq!(channel.try_recv(), Recv::Message('b'));
    assert_eq!(channel.try_recv(), Recv::Message('c'));
    assert_eq!(channel.try_recv(), Recv::Pending);
}

#[test]
fn closed_receiver_refuses_and_hands_the_message_back() {
    let mut channel = Channel::new();
    channel.send(1u8).unwrap();
    assert!(!channel.is_closed());
    channel.close_receiver();
    assert!(channel.is_closed());
    assert_eq!(channel.send(2u8), Err(2u8));
    assert_eq!(channel.len(), 1);
    assert_eq!(channel.try_recv(), Recv::Message(1u8));
    assert_eq!(channel.try_recv(), Recv::Closed);
}

#[test]
fn dropped_sender_lets_the_receiver_drain() {
    let mut channel = Channel::new();
    channel.send("x").unwrap();
    assert!(!channel.sender_gone());
    channel.drop_sender();
    assert!(channel.sender_gone());
    assert_eq!(channel.send("y"), Err("y"));
    assert_eq!(channel.try_recv(), Recv::Message("x"));
    assert_eq!(channel.try_recv(), Recv::Closed);
    assert_eq!(channel.try_recv(), Recv::Closed);
}

#[test]
fn empty_open_channel_is_pending() {
    let mut channel: Channel<u64> = Channel::new();
    assert_eq!(channel.try_recv(), Recv::Pending);
    assert_eq!(channel.len(), 0);
}
