use pragma_sdk::ws::channel::Recv;
use pragma_sdk::ws::driver::{ReadEvent, ReaderInput, WriteOutcome, WriterAction, WriterWake};
use pragma_sdk::ws::model::{ConnectionState, LoopState};
use pragma_sdk::ws::{
    ConnectError, Handshake, PragmaWsClient, SendError, WsError, API_KEY_HEADER,
    PING_INTERVAL_SECS,
};

#[derive(Debug, Clone, PartialEq, Eq)]
struct Msg(u64);

/// Decodes `{"a":N}` to `Msg(N)` and nothing else.
fn decode(text: String) -> Option<Msg> {
    let inner = text.strip_prefix("{\"a\":")?.strip_suffix('}')?;
    inner.parse::<u64>().ok().map(Msg)
}

fn fresh() -> PragmaWsClient<Msg, fn(String) -> Option<Msg>> {
    PragmaWsClient::new(
        "wss://example.test/feed".to_string(),
        "secret".to_string(),
        decode as fn(String) -> Option<Msg>,
    )
}

fn active() -> PragmaWsClient<Msg, fn(String) -> Option<Msg>> {
    let mut client = fresh();
    client.connect().unwrap();
    client.handshake_done(Ok(())).unwrap();
    client
}

#[test]
fn new_client_is_unconnected() {
    let client = fresh();
    assert_eq!(client.state(), ConnectionState::Unconnected);
    assert_eq!(client.writer_state(), LoopState::NotStarted);
    assert_eq!(client.reader_state(), LoopState::NotStarted);
    assert_eq!(client.url(), "wss://example.test/feed");
    assert_eq!(client.ping_interval_secs(), 25);
    assert_eq!(PING_INTERVAL_SECS, 25);
    assert_eq!(client.outbound_len(), 0);
    assert_eq!(client.inbound_len(), 0);
}

#[test]
fn connect_hands_out_the_handshake() {
    let mut client = fresh();
    let handshake = client.connect().unwrap();
    assert_eq!(
        handshake,
        Handshake { url: "wss://example.test/feed".to_string(), api_key: "secret".to_string() }
    );
    assert_eq!(API_KEY_HEADER, "x-api-key");
    assert_eq!(client.state(), ConnectionState::Connecting);
    assert_eq!(client.writer_state(), LoopState::NotStarted);
}

#[test]
fn successful_handshake_starts_both_loops() {
    let mut client = fresh();
    client.connect().unwrap();
    assert_eq!(client.handshake_done(Ok(())), Ok(()));
    assert_eq!(client.state(), ConnectionState::Active);
    assert_eq!(client.writer_state(), LoopState::Running);
    assert_eq!(client.reader_state(), LoopState::Running);
}

#[test]
fn failed_handshake_closes_the_client() {
    let mut client = fresh();
    client.connect().unwrap();
    assert_eq!(
        client.handshake_done(Err("tls: bad certificate".to_string())),
        Err(ConnectError::Handshake("tls: bad certificate".to_string()))
    );
    assert_eq!(client.state(), ConnectionState::Closed);
    assert_eq!(client.writer_state(), LoopState::NotStarted);
    assert_eq!(client.reader_state(), LoopState::NotStarted);
    assert_eq!(client.connect(), Err(ConnectError::AlreadyConnected));
    assert_eq!(client.state(), ConnectionState::Closed);
}

#[test]
fn second_connect_is_refused() {
    let mut client = active();
    assert_eq!(client.connect(), Err(ConnectError::AlreadyConnected));
    assert_eq!(client.state(), ConnectionState::Active);
    assert_eq!(client.handshake_done(Ok(())), Err(ConnectError::AlreadyConnected));
    assert_eq!(client.state(), ConnectionState::Active);
    assert_eq!(client.writer_state(), LoopState::Running);
    assert_eq!(client.reader_state(), LoopState::Running);
}

#[test]
fn second_connect_during_handshake_is_refused() {
    let mut client = fresh();
    client.connect().unwrap();
    assert_eq!(client.connect(), Err(ConnectError::AlreadyConnected));
    assert_eq!(client.state(), ConnectionState::Connecting);
    assert_eq!(client.handshake_done(Ok(())), Ok(()));
}

#[test]
fn handshake_report_without_connect_is_refused() {
    let mut client = fresh();
    assert_eq!(client.handshake_done(Ok(())), Err(ConnectError::AlreadyConnected));
    assert_eq!(client.state(), ConnectionState::Unconnected);
    assert_eq!(client.writer_state(), LoopState::NotStarted);
}

#[test]
fn sends_reach_the_wire_in_call_order() {
    let mut client = active();
    for n in 1..=5u64 {
        assert_eq!(client.send(Msg(n)), Ok(()));
    }
    assert_eq!(client.outbound_len(), 5);
    let mut wire = Vec::new();
    loop {
        match client.writer_step(WriterWake::Outbound) {
            WriterAction::Transmit(msg) => {
                wire.push(msg);
                assert!(client.writer_done(WriteOutcome::Written));
            }
            WriterAction::Wait => break,
            other => panic!("unexpected action {:?}", other),
        }
    }
    assert_eq!(wire, vec![Msg(1), Msg(2), Msg(3), Msg(4), Msg(5)]);
    assert_eq!(client.outbound_len(), 0);
}

#[test]
fn pings_interleave_without_reordering() {
    let mut client = active();
    client.send(Msg(1)).unwrap();
    client.send(Msg(2)).unwrap();
    assert_eq!(client.writer_step(WriterWake::Keepalive), WriterAction::Ping);
    assert!(client.writer_done(WriteOutcome::Written));
    assert_eq!(client.writer_step(WriterWake::Outbound), WriterAction::Transmit(Msg(1)));
    assert!(client.writer_done(WriteOutcome::Written));
    assert_eq!(client.writer_step(WriterWake::Keepalive), WriterAction::Ping);
    assert!(client.writer_done(WriteOutcome::Written));
    client.send(Msg(3)).unwrap();
    assert_eq!(client.writer_step(WriterWake::Outbound), WriterAction::Transmit(Msg(2)));
    assert!(client.writer_done(WriteOutcome::Written));
    assert_eq!(client.writer_step(WriterWake::Outbound), WriterAction::Transmit(Msg(3)));
    assert!(client.writer_done(WriteOutcome::Written));
    assert_eq!(client.writer_step(WriterWake::Outbound), WriterAction::Wait);
}

#[test]
fn send_before_connect_is_queued() {
    let mut client = fresh();
    assert_eq!(client.send(Msg(7)), Ok(()));
    assert_eq!(client.outbound_len(), 1);
    assert_eq!(client.writer_step(WriterWake::Outbound), WriterAction::Exit);
    client.connect().unwrap();
    client.handshake_done(Ok(())).unwrap();
    assert_eq!(client.writer_step(WriterWake::Outbound), WriterAction::Transmit(Msg(7)));
}

#[test]
fn send_after_failed_handshake_is_queued_and_never_taken() {
    let mut client = fresh();
    client.connect().unwrap();
    assert!(client.handshake_done(Err("refused".to_string())).is_err());
    assert_eq!(client.send(Msg(1)), Ok(()));
    assert_eq!(client.writer_step(WriterWake::Outbound), WriterAction::Exit);
    assert_eq!(client.outbound_len(), 1);
    assert_eq!(client.recv(), Recv::Pending);
}

#[test]
fn unserializable_message_is_dropped_and_the_loop_goes_on() {
    let mut client = active();
    client.send(Msg(1)).unwrap();
    client.send(Msg(2)).unwrap();
    assert_eq!(client.dropped_count(), 0);
    assert_eq!(client.writer_step(WriterWake::Outbound), WriterAction::Transmit(Msg(1)));
    assert!(client.writer_done(WriteOutcome::Unserializable));
    assert_eq!(client.dropped_count(), 1);
    assert_eq!(client.writer_state(), LoopState::Running);
    assert_eq!(client.state(), ConnectionState::Active);
    assert_eq!(client.writer_step(WriterWake::Outbound), WriterAction::Transmit(Msg(2)));
    assert!(client.writer_done(WriteOutcome::Written));
    assert_eq!(client.dropped_count(), 1);
    assert_eq!(client.send(Msg(3)), Ok(()));
    assert_eq!(client.writer_step(WriterWake::Outbound), WriterAction::Transmit(Msg(3)));
    assert!(client.writer_done(WriteOutcome::Unserializable));
    assert_eq!(client.dropped_count(), 2);
    assert!(client.writer_done(WriteOutcome::Unserializable));
    assert_eq!(client.dropped_count(), 2);
}

#[test]
fn write_failure_closes_the_outbound_channel() {
    let mut client = active();
    client.send(Msg(1)).unwrap();
    assert_eq!(client.writer_step(WriterWake::Outbound), WriterAction::Transmit(Msg(1)));
    assert_eq!(client.send(Msg(2)), Ok(()));
    assert!(!client.writer_done(WriteOutcome::Failed));
    assert_eq!(client.writer_state(), LoopState::Exited);
    assert_eq!(client.state(), ConnectionState::Closed);
    assert_eq!(client.send(Msg(3)), Err(SendError::ChannelClosed));
    assert_eq!(client.send(Msg(4)), Err(SendError::ChannelClosed));
    assert_eq!(client.writer_step(WriterWake::Outbound), WriterAction::Exit);
    assert_eq!(client.writer_step(WriterWake::Keepalive), WriterAction::Exit);
}

#[test]
fn write_failure_leaves_the_reader_loop_alone() {
    let mut client = active();
    assert!(client.reader_step(ReadEvent::Text("{\"a\":1}".to_string())));
    client.send(Msg(9)).unwrap();
    assert_eq!(client.writer_step(WriterWake::Outbound), WriterAction::Transmit(Msg(9)));
    assert!(!client.writer_done(WriteOutcome::Failed));
    assert_eq!(client.reader_state(), LoopState::Running);
    assert_eq!(client.inbound_len(), 1);
    assert!(client.reader_step(ReadEvent::Text("{\"a\":2}".to_string())));
    assert_eq!(client.recv(), Recv::Message(Msg(1)));
    assert_eq!(client.recv(), Recv::Message(Msg(2)));
    assert_eq!(client.recv(), Recv::Pending);
}

#[test]
fn ping_failure_ends_the_writer_loop() {
    let mut client = active();
    assert_eq!(client.writer_step(WriterWake::Keepalive), WriterAction::Ping);
    assert!(!client.writer_done(WriteOutcome::Failed));
    assert_eq!(client.writer_state(), LoopState::Exited);
    assert_eq!(client.send(Msg(1)), Err(SendError::ChannelClosed));
}

#[test]
fn keepalive_needs_no_traffic() {
    let mut client = active();
    let mut pings = 0;
    for _ in 0..4 {
        assert_eq!(client.writer_step(WriterWake::Keepalive), WriterAction::Ping);
        assert!(client.writer_done(WriteOutcome::Written));
        pings += 1;
        assert_eq!(client.writer_step(WriterWake::Outbound), WriterAction::Wait);
    }
    assert_eq!(pings, 4);
    assert_eq!(client.outbound_len(), 0);
    assert_eq!(client.state(), ConnectionState::Active);
}

#[test]
fn keepalive_comes_before_queued_messages_when_the_timer_fires() {
    let mut client = active();
    client.send(Msg(1)).unwrap();
    assert_eq!(client.writer_step(WriterWake::Keepalive), WriterAction::Ping);
    assert_eq!(client.outbound_len(), 1);
    assert!(client.writer_done(WriteOutcome::Written));
    assert_eq!(client.writer_step(WriterWake::Outbound), WriterAction::Transmit(Msg(1)));
}

#[test]
fn writer_waits_while_a_frame_is_in_flight() {
    let mut client = active();
    client.send(Msg(1)).unwrap();
    client.send(Msg(2)).unwrap();
    assert_eq!(client.writer_step(WriterWake::Outbound), WriterAction::Transmit(Msg(1)));
    assert_eq!(client.writer_step(WriterWake::Outbound), WriterAction::Wait);
    assert_eq!(client.writer_step(WriterWake::Keepalive), WriterAction::Wait);
    assert_eq!(client.outbound_len(), 1);
    assert!(client.writer_done(WriteOutcome::Written));
    assert_eq!(client.writer_step(WriterWake::Outbound), WriterAction::Transmit(Msg(2)));
}

#[test]
fn report_without_a_frame_in_flight_changes_nothing() {
    let mut client = active();
    assert!(client.writer_done(WriteOutcome::Failed));
    assert_eq!(client.writer_state(), LoopState::Running);
    assert_eq!(client.state(), ConnectionState::Active);
    let mut idle = fresh();
    assert!(!idle.writer_done(WriteOutcome::Written));
    assert_eq!(idle.writer_state(), LoopState::NotStarted);
}

#[test]
fn malformed_frame_between_two_valid_frames() {
    let mut client = active();
    assert!(client.reader_step(ReadEvent::Text("{\"a\":10}".to_string())));
    assert!(client.reader_step(ReadEvent::Text("garbage".to_string())));
    assert!(client.reader_step(ReadEvent::Text("{\"a\":20}".to_string())));
    assert_eq!(client.inbound_len(), 2);
    assert_eq!(client.recv(), Recv::Message(Msg(10)));
    assert_eq!(client.recv(), Recv::Message(Msg(20)));
    assert_eq!(client.recv(), Recv::Pending);
}

#[test]
fn frames_that_are_no_text_are_ignored() {
    let mut client = active();
    assert!(client.reader_step(ReadEvent::Other));
    assert_eq!(client.inbound_len(), 0);
    assert_eq!(client.recv(), Recv::Pending);
    assert_eq!(client.reader_state(), LoopState::Running);
    assert_eq!(client.state(), ConnectionState::Active);
}

#[test]
fn decoded_input_is_delivered_as_it_is() {
    let mut client = active();
    assert!(client.reader_deliver(ReaderInput::Text(Some(Msg(5)))));
    assert!(client.reader_deliver(ReaderInput::Text(None)));
    assert!(client.reader_deliver(ReaderInput::Other));
    assert!(client.reader_deliver(ReaderInput::Text(Some(Msg(6)))));
    assert_eq!(client.inbound_len(), 2);
    assert!(!client.reader_deliver(ReaderInput::Failed));
    assert!(!client.reader_deliver(ReaderInput::Text(Some(Msg(7)))));
    assert_eq!(client.recv(), Recv::Message(Msg(5)));
    assert_eq!(client.recv(), Recv::Message(Msg(6)));
    assert_eq!(client.recv(), Recv::Closed);
}

#[test]
fn end_to_end_scenario() {
    let mut client = fresh();
    let handshake = client.connect().unwrap();
    assert_eq!(handshake.url, "wss://example.test/feed");
    assert_eq!(client.handshake_done(Ok(())), Ok(()));
    assert!(client.reader_step(ReadEvent::Text("{\"a\":1}".to_string())));
    assert!(client.reader_step(ReadEvent::Text("not json".to_string())));
    assert!(client.reader_step(ReadEvent::Text("{\"a\":2}".to_string())));
    assert_eq!(client.recv(), Recv::Message(Msg(1)));
    assert_eq!(client.recv(), Recv::Message(Msg(2)));
    assert_eq!(client.recv(), Recv::Pending);
    assert!(!client.reader_step(ReadEvent::Ended));
    assert_eq!(client.recv(), Recv::Closed);
    assert_eq!(client.recv(), Recv::Closed);
    assert_eq!(client.state(), ConnectionState::Closed);
}

#[test]
fn buffered_messages_are_drained_after_the_stream_ended() {
    let mut client = active();
    assert!(client.reader_step(ReadEvent::Text("{\"a\":1}".to_string())));
    assert!(client.reader_step(ReadEvent::Text("{\"a\":2}".to_string())));
    assert!(!client.reader_step(ReadEvent::Ended));
    assert_eq!(client.reader_state(), LoopState::Exited);
    assert_eq!(client.recv(), Recv::Message(Msg(1)));
    assert_eq!(client.recv(), Recv::Message(Msg(2)));
    assert_eq!(client.recv(), Recv::Closed);
}

#[test]
fn read_error_ends_the_reader_loop_only() {
    let mut client = active();
    assert!(!client.reader_step(ReadEvent::Failed));
    assert_eq!(client.reader_state(), LoopState::Exited);
    assert_eq!(client.writer_state(), LoopState::Running);
    assert_eq!(client.state(), ConnectionState::Closed);
    assert_eq!(client.recv(), Recv::Closed);
    assert_eq!(client.send(Msg(1)), Ok(()));
    assert_eq!(client.writer_step(WriterWake::Outbound), WriterAction::Transmit(Msg(1)));
    assert!(client.writer_done(WriteOutcome::Written));
    assert!(!client.reader_step(ReadEvent::Text("{\"a\":1}".to_string())));
    assert_eq!(client.inbound_len(), 0);
}

#[test]
fn reader_does_nothing_before_the_handshake() {
    let mut client = fresh();
    assert!(!client.reader_step(ReadEvent::Text("{\"a\":1}".to_string())));
    assert_eq!(client.inbound_len(), 0);
    assert_eq!(client.reader_state(), LoopState::NotStarted);
    assert_eq!(client.recv(), Recv::Pending);
}

#[test]
fn close_lets_the_writer_drain_and_exit() {
    let mut client = active();
    client.send(Msg(1)).unwrap();
    client.send(Msg(2)).unwrap();
    client.close();
    assert_eq!(client.state(), ConnectionState::Closed);
    assert_eq!(client.send(Msg(3)), Err(SendError::ChannelClosed));
    assert_eq!(client.writer_step(WriterWake::Outbound), WriterAction::Transmit(Msg(1)));
    assert!(client.writer_done(WriteOutcome::Written));
    assert_eq!(client.writer_step(WriterWake::Outbound), WriterAction::Transmit(Msg(2)));
    assert!(client.writer_done(WriteOutcome::Written));
    assert_eq!(client.writer_state(), LoopState::Running);
    assert_eq!(client.writer_step(WriterWake::Outbound), WriterAction::Exit);
    assert_eq!(client.writer_state(), LoopState::Exited);
}

#[test]
fn forwarding_after_close_is_a_no_op() {
    let mut client = active();
    assert!(client.reader_step(ReadEvent::Text("{\"a\":1}".to_string())));
    client.close();
    assert!(client.reader_step(ReadEvent::Text("{\"a\":2}".to_string())));
    assert_eq!(client.reader_state(), LoopState::Running);
    assert_eq!(client.inbound_len(), 1);
    assert_eq!(client.recv(), Recv::Message(Msg(1)));
    assert_eq!(client.recv(), Recv::Closed);
}

#[test]
fn close_before_connect_is_final() {
    let mut client = fresh();
    client.close();
    assert_eq!(client.state(), ConnectionState::Closed);
    assert_eq!(client.connect(), Err(ConnectError::AlreadyConnected));
    assert_eq!(client.send(Msg(1)), Err(SendError::ChannelClosed));
    assert_eq!(client.recv(), Recv::Closed);
}

#[test]
fn ping_interval_is_configurable() {
    let mut client = fresh();
    assert!(client.set_ping_interval_secs(10));
    assert_eq!(client.ping_interval_secs(), 10);
    assert!(!client.set_ping_interval_secs(0));
    assert_eq!(client.ping_interval_secs(), 10);
    assert!(client.set_ping_interval_secs(u64::MAX));
    assert_eq!(client.ping_interval_secs(), u64::MAX);
    client.connect().unwrap();
    assert!(client.set_ping_interval_secs(30));
    assert_eq!(client.ping_interval_secs(), 30);
}

#[test]
fn ping_interval_is_fixed_once_the_writer_has_started() {
    let mut client = active();
    assert!(!client.set_ping_interval_secs(10));
    assert_eq!(client.ping_interval_secs(), 25);
    assert_eq!(client.writer_step(WriterWake::Keepalive), WriterAction::Ping);
    assert!(!client.writer_done(WriteOutcome::Failed));
    assert!(!client.set_ping_interval_secs(10));
    assert_eq!(client.ping_interval_secs(), 25);
}

#[test]
fn ws_error_messages() {
    assert_eq!(WsError::Connection("refused".to_string()).message(), "Connection error: refused");
    assert_eq!(WsError::Send("closed".to_string()).message(), "Send error: closed");
    assert_eq!(WsError::Parse("bad".to_string()).message(), "Parse error: bad");
    assert_eq!(
        WsError::Serialization("cycle".to_string()).message(),
        "Serialization error: cycle"
    );
}

#[test]
fn ws_error_from_relay_errors() {
    assert_eq!(
        WsError::from_connect_error(ConnectError::AlreadyConnected),
        WsError::Send("Connect already called.".to_string())
    );
    assert_eq!(
        WsError::from_connect_error(ConnectError::Handshake("timeout".to_string())),
        WsError::Connection("timeout".to_string())
    );
    assert_eq!(
        WsError::from_send_error(SendError::ChannelClosed),
        WsError::Send("channel closed".to_string())
    );
}
