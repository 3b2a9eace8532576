//! The typed WebSocket relay: a client that turns one connection into two
//! independent typed channels, and the driver that keeps the connection
//! alive.
//!
//! The relay does no input or output of its own. The caller performs the
//! handshake, the reads, the writes and the waiting, and reports each
//! outcome; the relay decides what happens next.

use vstd::prelude::*;

pub mod channel;
pub mod driver;
pub mod laws;
pub mod lightspeed;
pub mod model;
pub mod starkex;

use crate::text::join;
use channel::{Channel, Recv};
use model::{dropped, Attempt, ConnectionState, Frame, LoopState, RelayView};

verus! {

/// The default keepalive period in seconds.
pub const PING_INTERVAL_SECS: u64 = 25;

/// The name of the header that carries the credential in the handshake.
pub const API_KEY_HEADER: &'static str = "x-api-key";

/// Why `connect` failed.
#[derive(Debug, Clone, PartialEq, Eq)]
pub enum ConnectError {
    /// `connect` had been called before on this client.
    AlreadyConnected,
    /// The handshake failed; the detail says how.
    Handshake(String),
}

/// Why `send` failed.
#[derive(Debug, Clone, Copy, PartialEq, Eq, Structural)]
pub enum SendError {
    /// The writer loop has exited, or the handles were closed.
    ChannelClosed,
}

/// The errors of the relay, as text for the application.
#[derive(Debug, Clone, PartialEq, Eq)]
pub enum WsError {
    /// The connection could not be made.
    Connection(String),
    /// A message could not be handed over.
    Send(String),
    /// A frame could not be parsed.
    Parse(String),
    /// A message could not be serialized.
    Serialization(String),
}

impl WsError {
    /// The error in words.
    pub open spec fn text(self) -> Seq<char> {
        match self {
            WsError::Connection(detail) => "Connection error: "@ + detail@,
            WsError::Send(detail) => "Send error: "@ + detail@,
            WsError::Parse(detail) => "Parse error: "@ + detail@,
            WsError::Serialization(detail) => "Serialization error: "@ + detail@,
        }
    }

    /// Returns the error in words.
    pub fn message(&self) -> (s: String)
        ensures
            s@ == self.text(),
    {
        match self {
            WsError::Connection(detail) => join("Connection error: ", detail.as_str()),
            WsError::Send(detail) => join("Send error: ", detail.as_str()),
            WsError::Parse(detail) => join("Parse error: ", detail.as_str()),
            WsError::Serialization(detail) => join("Serialization error: ", detail.as_str()),
        }
    }

    /// Puts a failure of `connect` into words: a failed handshake is a
    /// connection error with the handshake's detail, a repeated call is a
    /// send error.
    pub fn from_connect_error(error: ConnectError) -> (r: WsError)
        ensures
            match error {
                ConnectError::AlreadyConnected => match r {
                    WsError::Send(detail) => detail@ == "Connect already called."@,
                    _ => false,
                },
                ConnectError::Handshake(reason) => match r {
                    WsError::Connection(detail) => detail@ == reason@,
                    _ => false,
                },
            },
    {
        match error {
            ConnectError::AlreadyConnected => WsError::Send("Connect already called.".to_owned()),
            ConnectError::Handshake(reason) => WsError::Connection(reason),
        }
    }

    /// Puts a failure of `send` into words.
    pub fn from_send_error(error: SendError) -> (r: WsError)
        ensures
            match r {
                WsError::Send(detail) => detail@ == "channel closed"@,
                _ => false,
            },
    {
        match error {
            SendError::ChannelClosed => WsError::Send("channel closed".to_owned()),
        }
    }
}

/// `n`, or the largest number that a counter holds where `n` is larger.
pub open spec fn capped(n: nat) -> u64 {
    if n <= u64::MAX {
        n as u64
    } else {
        u64::MAX
    }
}

/// What the caller needs to perform the handshake.
#[derive(Debug, Clone, PartialEq, Eq)]
pub struct Handshake {
    /// The address of the endpoint.
    pub url: String,
    /// The credential, to be sent under the header `API_KEY_HEADER`.
    pub api_key: String,
}

/// The part of a client's state that exists for the proofs alone: the
/// frame in flight and the record of what has passed through the relay.
struct History<T> {
    in_flight: Option<Frame<T>>,
    submitted: Seq<T>,
    attempts: Seq<Attempt<T>>,
    forwarded: Seq<T>,
    delivered: Seq<T>,
}

/// A relay client for messages of type `T`, decoded by a handler of type `D`.
pub struct PragmaWsClient<T, D> {
    url: String,
    api_key: String,
    message_handler: D,
    ping_interval_secs: u64,
    state: ConnectionState,
    writer: LoopState,
    reader: LoopState,
    busy: bool,
    dropped: u64,
    outgoing: Channel<T>,
    incoming: Channel<T>,
    history: Ghost<History<T>>,
}

impl<T, D: Fn(String) -> Option<T>> View for PragmaWsClient<T, D> {
    type V = RelayView<T>;

    closed spec fn view(&self) -> RelayView<T> {
        RelayView {
            url: self.url@,
            api_key: self.api_key@,
            ping_interval_secs: self.ping_interval_secs,
            decodes: |text: String, decoded: Option<T>|
                call_ensures(self.message_handler, (text,), decoded),
            state: self.state,
            writer: self.writer,
            reader: self.reader,
            in_flight: self.history@.in_flight,
            outgoing: self.outgoing@,
            incoming: self.incoming@,
            submitted: self.history@.submitted,
            attempts: self.history@.attempts,
            forwarded: self.history@.forwarded,
            delivered: self.history@.delivered,
        }
    }
}

impl<T, D: Fn(String) -> Option<T>> PragmaWsClient<T, D> {
    /// Whether the fields that the view does not show agree with it.
    pub closed spec fn consistent(&self) -> bool {
        &&& self.busy == (self.history@.in_flight is Some)
        &&& self.dropped == capped(dropped(self.history@.attempts))
        &&& forall|text: String| call_requires(self.message_handler, (text,))
    }

    /// Whether the client is a well-formed relay.
    pub open spec fn wf(&self) -> bool {
        self@.inv() && self.consistent()
    }

    /// Creates a client for the endpoint at `url`. Nothing is connected
    /// yet; the keepalive period is `PING_INTERVAL_SECS`.
    pub fn new(url: String, api_key: String, message_handler: D) -> (c: Self)
        requires
            forall|text: String| call_requires(message_handler, (text,)),
        ensures
            c.wf(),
            c@ == RelayView::<T>::init(
                url@,
                api_key@,
                |text: String, decoded: Option<T>| call_ensures(message_handler, (text,), decoded),
            ),
    {
        PragmaWsClient {
            url,
            api_key,
            message_handler,
            ping_interval_secs: PING_INTERVAL_SECS,
            state: ConnectionState::Unconnected,
            writer: LoopState::NotStarted,
            reader: LoopState::NotStarted,
            busy: false,
            dropped: 0,
            outgoing: Channel::new(),
            incoming: Channel::new(),
            history: Ghost(
                History {
                    in_flight: None,
                    submitted: Seq::empty(),
                    attempts: Seq::empty(),
                    forwarded: Seq::empty(),
                    delivered: Seq::empty(),
                },
            ),
        }
    }

    /// Starts connecting. The first call on a client hands out what the
    /// handshake needs; every later call fails and changes nothing.
    pub fn connect(&mut self) -> (r: Result<Handshake, ConnectError>)
        requires
            old(self).wf(),
        ensures
            final(self).wf(),
            final(self)@ == old(self)@.connect(),
            match r {
                Ok(h) => old(self)@.state is Unconnected && h.url@ == old(self)@.url && h.api_key@
                    == old(self)@.api_key,
                Err(e) => !(old(self)@.state is Unconnected) && e is AlreadyConnected,
            },
    {
        match self.state {
            ConnectionState::Unconnected => {
                self.state = ConnectionState::Connecting;
                Ok(Handshake { url: self.url.clone(), api_key: self.api_key.clone() })
            },
            _ => Err(ConnectError::AlreadyConnected),
        }
    }

    /// Takes the outcome of the handshake that `connect` asked for. A
    /// success starts both driver loops; a failure closes the client for
    /// good. With no handshake under way the call fails and changes
    /// nothing.
    pub fn handshake_done(&mut self, outcome: Result<(), String>) -> (r: Result<(), ConnectError>)
        requires
            old(self).wf(),
        ensures
            final(self).wf(),
            final(self)@ == old(self)@.handshake_done(outcome is Ok),
            r == if !(old(self)@.state is Connecting) {
                Err::<(), ConnectError>(ConnectError::AlreadyConnected)
            } else {
                match outcome {
                    Ok(_) => Ok(()),
                    Err(detail) => Err(ConnectError::Handshake(detail)),
                }
            },
    {
        match self.state {
            ConnectionState::Connecting => match outcome {
                Ok(_) => {
                    self.state = ConnectionState::Active;
                    self.writer = LoopState::Running;
                    self.reader = LoopState::Running;
                    Ok(())
                },
                Err(detail) => {
                    self.state = ConnectionState::Closed;
                    Err(ConnectError::Handshake(detail))
                },
            },
            _ => Err(ConnectError::AlreadyConnected),
        }
    }

    /// Hands `msg` to the outbound channel and returns at once. The call
    /// fails, and the message is dropped, exactly when the channel no
    /// longer accepts messages: the writer loop has exited or the handles
    /// were closed.
    pub fn send(&mut self, msg: T) -> (r: Result<(), SendError>)
        requires
            old(self).wf(),
        ensures
            final(self).wf(),
            final(self)@ == old(self)@.send(msg),
            r is Ok == old(self)@.outgoing.accepts(),
    {
        let ghost m = msg;
        match self.outgoing.send(msg) {
            Ok(_) => {
                proof {
                    self.history@ = History {
                        submitted: self.history@.submitted.push(m),
                        ..self.history@
                    };
                }
                Ok(())
            },
            Err(_) => Err(SendError::ChannelClosed),
        }
    }

    /// Takes the next inbound message without waiting: the oldest
    /// buffered message, `Pending` while none is buffered and more may
    /// come, `Closed` once none is buffered and none will come.
    pub fn recv(&mut self) -> (r: Recv<T>)
        requires
            old(self).wf(),
        ensures
            final(self).wf(),
            r == old(self)@.received(),
            final(self)@ == old(self)@.recv(),
    {
        let ghost before = self.incoming@;
        let r = self.incoming.try_recv();
        proof {
            if before.queue.len() > 0 {
                self.history@ = History {
                    delivered: self.history@.delivered.push(before.queue[0]),
                    ..self.history@
                };
                assert(old(self)@.delivered + before.queue =~= self@.delivered
                    + self@.incoming.queue);
            }
        }
        r
    }

    /// Lets go of the application's two channel handles. The writer loop
    /// exits once it has drained the outbound channel; what is buffered
    /// inbound can still be received.
    pub fn close(&mut self)
        requires
            old(self).wf(),
        ensures
            final(self).wf(),
            final(self)@ == old(self)@.close(),
    {
        self.state = ConnectionState::Closed;
        self.outgoing.drop_sender();
        self.incoming.close_receiver();
    }

    /// Sets the keepalive period. The writer loop takes the period when it
    /// starts, so the period can be set until then, to a second or more.
    /// Otherwise the call returns `false` and changes nothing.
    pub fn set_ping_interval_secs(&mut self, secs: u64) -> (accepted: bool)
        requires
            old(self).wf(),
        ensures
            final(self).wf(),
            accepted == old(self)@.accepts_ping_interval(secs),
            final(self)@ == old(self)@.set_ping_interval(secs),
    {
        match self.writer {
            LoopState::NotStarted => {
                if secs >= 1 {
                    self.ping_interval_secs = secs;
                    true
                } else {
                    false
                }
            },
            _ => false,
        }
    }

    /// The keepalive period in seconds.
    pub fn ping_interval_secs(&self) -> (secs: u64)
        ensures
            secs == self@.ping_interval_secs,
    {
        self.ping_interval_secs
    }

    /// The address of the endpoint.
    pub fn url(&self) -> (url: &str)
        ensures
            url@ == self@.url,
    {
        self.url.as_str()
    }

    /// The number of messages that were dropped because they could not
    /// be serialized. The counter stops at the largest number it holds.
    pub fn dropped_count(&self) -> (n: u64)
        requires
            self.wf(),
        ensures
            n == capped(dropped(self@.attempts)),
    {
        self.dropped
    }

    /// The state of the writer loop.
    pub fn writer_state(&self) -> (s: LoopState)
        ensures
            s == self@.writer,
    {
        self.writer
    }

    /// The state of the reader loop.
    pub fn reader_state(&self) -> (s: LoopState)
        ensures
            s == self@.reader,
    {
        self.reader
    }

    /// The number of messages that wait in the outbound channel.
    pub fn outbound_len(&self) -> (n: usize)
        ensures
            n == self@.outgoing.queue.len(),
    {
        self.outgoing.len()
    }

    /// The number of messages that wait in the inbound channel.
    pub fn inbound_len(&self) -> (n: usize)
        ensures
            n == self@.incoming.queue.len(),
    {
        self.incoming.len()
    }

    /// The state of the connection.
    pub fn state(&self) -> (s: ConnectionState)
        ensures
            s == self@.state,
    {
        self.state
    }
}

} // verus!
