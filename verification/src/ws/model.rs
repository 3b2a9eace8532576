//! The relay as a state machine over mathematical values: its states, the
//! events that drive it, the transition each event causes and the invariant
//! that every reachable state satisfies.

use super::channel::{ChannelView, Recv};
use super::driver::{ReaderInput, WriteOutcome, WriterAction, WriterWake};
use super::PING_INTERVAL_SECS;
use vstd::prelude::*;

verus! {

/// Where a client stands in its life. The state only ever moves forward.
#[derive(Debug, Clone, Copy, PartialEq, Eq, Structural)]
pub enum ConnectionState {
    /// Freshly built: `connect` has not been called.
    Unconnected,
    /// `connect` was called and the handshake is under way.
    Connecting,
    /// The handshake succeeded and both driver loops are running.
    Active,
    /// The handshake failed, a loop has exited, or the handles were closed.
    Closed,
}

/// How far one of the two driver loops has come.
#[derive(Debug, Clone, Copy, PartialEq, Eq, Structural)]
pub enum LoopState {
    /// The loop has not been started.
    NotStarted,
    /// The loop is running.
    Running,
    /// The loop has exited and will not run again.
    Exited,
}

/// A frame that the writer loop puts on the wire.
pub enum Frame<T> {
    /// A text frame that carries the serialized form of a message.
    Message(T),
    /// A keepalive ping.
    Ping,
}

/// One attempt of the writer loop, with its outcome.
pub struct Attempt<T> {
    pub frame: Frame<T>,
    pub outcome: WriteOutcome,
}

/// The messages among `frames`, in order.
pub open spec fn messages<T>(frames: Seq<Frame<T>>) -> Seq<T>
    decreases frames.len(),
{
    if frames.len() == 0 {
        Seq::empty()
    } else {
        match frames.last() {
            Frame::Message(m) => messages(frames.drop_last()).push(m),
            Frame::Ping => messages(frames.drop_last()),
        }
    }
}

/// The number of pings among `frames`.
pub open spec fn pings<T>(frames: Seq<Frame<T>>) -> nat
    decreases frames.len(),
{
    if frames.len() == 0 {
        0
    } else {
        match frames.last() {
            Frame::Message(_) => pings(frames.drop_last()),
            Frame::Ping => pings(frames.drop_last()) + 1,
        }
    }
}

/// The frames that the writer loop tried to write, in order.
pub open spec fn attempted<T>(attempts: Seq<Attempt<T>>) -> Seq<Frame<T>>
    decreases attempts.len(),
{
    if attempts.len() == 0 {
        Seq::empty()
    } else {
        attempted(attempts.drop_last()).push(attempts.last().frame)
    }
}

/// The frames that reached the wire, in order.
pub open spec fn written<T>(attempts: Seq<Attempt<T>>) -> Seq<Frame<T>>
    decreases attempts.len(),
{
    if attempts.len() == 0 {
        Seq::empty()
    } else if attempts.last().outcome is Written {
        written(attempts.drop_last()).push(attempts.last().frame)
    } else {
        written(attempts.drop_last())
    }
}

/// The number of attempts that ended with the message dropped because it
/// could not be serialized.
pub open spec fn dropped<T>(attempts: Seq<Attempt<T>>) -> nat
    decreases attempts.len(),
{
    if attempts.len() == 0 {
        0
    } else if attempts.last().outcome is Unserializable {
        dropped(attempts.drop_last()) + 1
    } else {
        dropped(attempts.drop_last())
    }
}

/// Whether every attempt ended with the frame on the wire.
pub open spec fn all_written<T>(attempts: Seq<Attempt<T>>) -> bool {
    forall|i: int| 0 <= i < attempts.len() ==> (#[trigger] attempts[i]).outcome is Written
}

/// The messages that text frames decoded to, in order of arrival; frames
/// that are no text or did not decode leave no trace.
pub open spec fn decoded<T>(inputs: Seq<ReaderInput<T>>) -> Seq<T>
    decreases inputs.len(),
{
    if inputs.len() == 0 {
        Seq::empty()
    } else {
        match inputs.last() {
            ReaderInput::Text(Some(m)) => decoded(inputs.drop_last()).push(m),
            _ => decoded(inputs.drop_last()),
        }
    }
}

/// `messages` of a sequence that grew by one frame.
pub proof fn lemma_messages_push<T>(frames: Seq<Frame<T>>, frame: Frame<T>)
    ensures
        messages(frames.push(frame)) == match frame {
            Frame::Message(m) => messages(frames).push(m),
            Frame::Ping => messages(frames),
        },
{
    assert(frames.push(frame).drop_last() =~= frames);
}

/// `pings` of a sequence that grew by one frame.
pub proof fn lemma_pings_push<T>(frames: Seq<Frame<T>>, frame: Frame<T>)
    ensures
        pings(frames.push(frame)) == match frame {
            Frame::Message(_) => pings(frames),
            Frame::Ping => pings(frames) + 1,
        },
{
    assert(frames.push(frame).drop_last() =~= frames);
}

/// `attempted` of a log that grew by one attempt.
pub proof fn lemma_attempted_push<T>(attempts: Seq<Attempt<T>>, attempt: Attempt<T>)
    ensures
        attempted(attempts.push(attempt)) == attempted(attempts).push(attempt.frame),
{
    assert(attempts.push(attempt).drop_last() =~= attempts);
}

/// `written` of a log that grew by one attempt.
pub proof fn lemma_written_push<T>(attempts: Seq<Attempt<T>>, attempt: Attempt<T>)
    ensures
        written(attempts.push(attempt)) == if attempt.outcome is Written {
            written(attempts).push(attempt.frame)
        } else {
            written(attempts)
        },
{
    assert(attempts.push(attempt).drop_last() =~= attempts);
}

/// `dropped` of a log that grew by one attempt.
pub proof fn lemma_dropped_push<T>(attempts: Seq<Attempt<T>>, attempt: Attempt<T>)
    ensures
        dropped(attempts.push(attempt)) == if attempt.outcome is Unserializable {
            dropped(attempts) + 1
        } else {
            dropped(attempts)
        },
{
    assert(attempts.push(attempt).drop_last() =~= attempts);
}

/// `decoded` of a sequence that grew by one input.
pub proof fn lemma_decoded_push<T>(inputs: Seq<ReaderInput<T>>, input: ReaderInput<T>)
    ensures
        decoded(inputs.push(input)) == match input {
            ReaderInput::Text(Some(m)) => decoded(inputs).push(m),
            _ => decoded(inputs),
        },
{
    assert(inputs.push(input).drop_last() =~= inputs);
}

/// Anything that can happen to a relay: a call of the application or a
/// turn of one of the two driver loops.
pub enum RelayEvent<T> {
    Connect,
    /// The handshake ended; `true` for success.
    HandshakeDone(bool),
    Send(T),
    Recv,
    Close,
    SetPingInterval(u64),
    WriterStep(WriterWake),
    WriterDone(WriteOutcome),
    ReaderStep(ReaderInput<T>),
}

/// The messages that `events` pass to `send`, in call order.
pub open spec fn sends<T>(events: Seq<RelayEvent<T>>) -> Seq<T>
    decreases events.len(),
{
    if events.len() == 0 {
        Seq::empty()
    } else {
        match events.last() {
            RelayEvent::Send(msg) => sends(events.drop_last()).push(msg),
            _ => sends(events.drop_last()),
        }
    }
}

/// What `events` hand to the reader loop, in order of arrival.
pub open spec fn reads<T>(events: Seq<RelayEvent<T>>) -> Seq<ReaderInput<T>>
    decreases events.len(),
{
    if events.len() == 0 {
        Seq::empty()
    } else {
        match events.last() {
            RelayEvent::ReaderStep(input) => reads(events.drop_last()).push(input),
            _ => reads(events.drop_last()),
        }
    }
}

/// `n` pings in a row.
pub open spec fn ping_frames<T>(n: nat) -> Seq<Frame<T>> {
    Seq::new(n, |i: int| Frame::Ping)
}

/// The whole relay as a mathematical value: what the client and its driver
/// hold now, and a record of what has passed through them.
#[verifier::reject_recursive_types(T)]
pub struct RelayView<T> {
    /// The address of the endpoint.
    pub url: Seq<char>,
    /// The credential that goes with the handshake.
    pub api_key: Seq<char>,
    /// The keepalive period in seconds.
    pub ping_interval_secs: u64,
    /// Which results the message handler may return for which text.
    pub decodes: spec_fn(String, Option<T>) -> bool,
    pub state: ConnectionState,
    pub writer: LoopState,
    pub reader: LoopState,
    /// The frame that the writer loop is writing at the moment.
    pub in_flight: Option<Frame<T>>,
    /// Application to writer loop.
    pub outgoing: ChannelView<T>,
    /// Reader loop to application.
    pub incoming: ChannelView<T>,
    /// Every message that `send` accepted, in call order.
    pub submitted: Seq<T>,
    /// Every finished attempt of the writer loop, in order.
    pub attempts: Seq<Attempt<T>>,
    /// Every message that the reader loop put into the inbound channel.
    pub forwarded: Seq<T>,
    /// Every message that `recv` returned, in order.
    pub delivered: Seq<T>,
}

impl<T> RelayView<T> {
    /// The relay of a freshly built client.
    pub open spec fn init(
        url: Seq<char>,
        api_key: Seq<char>,
        decodes: spec_fn(String, Option<T>) -> bool,
    ) -> Self {
        RelayView {
            url,
            api_key,
            ping_interval_secs: PING_INTERVAL_SECS,
            decodes,
            state: ConnectionState::Unconnected,
            writer: LoopState::NotStarted,
            reader: LoopState::NotStarted,
            in_flight: None,
            outgoing: ChannelView::open(),
            incoming: ChannelView::open(),
            submitted: Seq::empty(),
            attempts: Seq::empty(),
            forwarded: Seq::empty(),
            delivered: Seq::empty(),
        }
    }

    /// The frames on the wire, in order.
    pub open spec fn wire(self) -> Seq<Frame<T>> {
        written(self.attempts)
    }

    /// The message in flight, if a message is in flight.
    pub open spec fn pending(self) -> Seq<T> {
        match self.in_flight {
            Some(Frame::Message(m)) => seq![m],
            _ => Seq::empty(),
        }
    }

    /// `connect` is called.
    pub open spec fn connect(self) -> Self {
        if self.state is Unconnected {
            RelayView { state: ConnectionState::Connecting, ..self }
        } else {
            self
        }
    }

    /// The outcome of the handshake is reported.
    pub open spec fn handshake_done(self, succeeded: bool) -> Self {
        if !(self.state is Connecting) {
            self
        } else if succeeded {
            RelayView {
                state: ConnectionState::Active,
                writer: LoopState::Running,
                reader: LoopState::Running,
                ..self
            }
        } else {
            RelayView { state: ConnectionState::Closed, ..self }
        }
    }

    /// `send` is called with `msg`.
    pub open spec fn send(self, msg: T) -> Self {
        if self.outgoing.accepts() {
            RelayView {
                outgoing: self.outgoing.pushed(msg),
                submitted: self.submitted.push(msg),
                ..self
            }
        } else {
            self
        }
    }

    /// What `recv` returns.
    pub open spec fn received(self) -> Recv<T> {
        self.incoming.received()
    }

    /// `recv` is called.
    pub open spec fn recv(self) -> Self {
        if self.incoming.queue.len() > 0 {
            RelayView {
                incoming: self.incoming.popped(),
                delivered: self.delivered.push(self.incoming.queue[0]),
                ..self
            }
        } else {
            self
        }
    }

    /// The application lets go of its two channel handles.
    pub open spec fn close(self) -> Self {
        RelayView {
            state: ConnectionState::Closed,
            outgoing: ChannelView { sender_gone: true, ..self.outgoing },
            incoming: ChannelView { receiver_closed: true, ..self.incoming },
            ..self
        }
    }

    /// The writer loop runs and has nothing in flight.
    pub open spec fn writer_ready(self) -> bool {
        self.writer is Running && self.in_flight is None
    }

    /// The relay after the writer loop has exited.
    pub open spec fn writer_exited(self) -> Self {
        RelayView {
            state: ConnectionState::Closed,
            writer: LoopState::Exited,
            in_flight: None,
            outgoing: ChannelView { receiver_closed: true, ..self.outgoing },
            ..self
        }
    }

    /// What the writer loop is told to do when `wake` has woken it.
    pub open spec fn writer_action(self, wake: WriterWake) -> WriterAction<T> {
        if !(self.writer is Running) {
            WriterAction::Exit
        } else if self.in_flight is Some {
            WriterAction::Wait
        } else if wake is Keepalive {
            WriterAction::Ping
        } else if self.outgoing.queue.len() > 0 {
            WriterAction::Transmit(self.outgoing.queue[0])
        } else if self.outgoing.sender_gone {
            WriterAction::Exit
        } else {
            WriterAction::Wait
        }
    }

    /// The writer loop was woken by `wake`.
    pub open spec fn writer_step(self, wake: WriterWake) -> Self {
        if !self.writer_ready() {
            self
        } else if wake is Keepalive {
            RelayView { in_flight: Some(Frame::Ping), ..self }
        } else if self.outgoing.queue.len() > 0 {
            RelayView {
                in_flight: Some(Frame::Message(self.outgoing.queue[0])),
                outgoing: self.outgoing.popped(),
                ..self
            }
        } else if self.outgoing.sender_gone {
            self.writer_exited()
        } else {
            self
        }
    }

    /// Whether the writer loop goes on after `outcome` was reported.
    pub open spec fn writer_continues(self, outcome: WriteOutcome) -> bool {
        self.writer is Running && !(self.in_flight is Some && outcome is Failed)
    }

    /// The writer loop reports how its attempt ended.
    pub open spec fn writer_done(self, outcome: WriteOutcome) -> Self {
        match self.in_flight {
            None => self,
            Some(frame) => {
                let logged = RelayView {
                    in_flight: None,
                    attempts: self.attempts.push(Attempt { frame, outcome }),
                    ..self
                };
                if outcome is Failed {
                    logged.writer_exited()
                } else {
                    logged
                }
            },
        }
    }

    /// Whether the reader loop goes on after `input`.
    pub open spec fn reader_continues(self, input: ReaderInput<T>) -> bool {
        self.reader is Running && !(input is Failed) && !(input is Ended)
    }

    /// The reader loop got `input` from the stream.
    pub open spec fn reader_step(self, input: ReaderInput<T>) -> Self {
        if !(self.reader is Running) {
            self
        } else {
            match input {
                ReaderInput::Text(Some(m)) => if self.incoming.receiver_closed {
                    self
                } else {
                    RelayView {
                        incoming: self.incoming.pushed(m),
                        forwarded: self.forwarded.push(m),
                        ..self
                    }
                },
                ReaderInput::Text(None) => self,
                ReaderInput::Other => self,
                ReaderInput::Failed | ReaderInput::Ended => RelayView {
                    state: ConnectionState::Closed,
                    reader: LoopState::Exited,
                    incoming: ChannelView { sender_gone: true, ..self.incoming },
                    ..self
                },
            }
        }
    }

    /// Whether the keepalive period can be set to `secs`: the period is at
    /// least a second, and the writer loop, which takes the period when it
    /// starts, has not been started.
    pub open spec fn accepts_ping_interval(self, secs: u64) -> bool {
        secs >= 1 && self.writer is NotStarted
    }

    /// The keepalive period is set to `secs`, if that can be done.
    pub open spec fn set_ping_interval(self, secs: u64) -> Self {
        if self.accepts_ping_interval(secs) {
            RelayView { ping_interval_secs: secs, ..self }
        } else {
            self
        }
    }

    /// The relay after `event`.
    pub open spec fn apply(self, event: RelayEvent<T>) -> Self {
        match event {
            RelayEvent::Connect => self.connect(),
            RelayEvent::HandshakeDone(succeeded) => self.handshake_done(succeeded),
            RelayEvent::Send(msg) => self.send(msg),
            RelayEvent::Recv => self.recv(),
            RelayEvent::Close => self.close(),
            RelayEvent::SetPingInterval(secs) => self.set_ping_interval(secs),
            RelayEvent::WriterStep(wake) => self.writer_step(wake),
            RelayEvent::WriterDone(outcome) => self.writer_done(outcome),
            RelayEvent::ReaderStep(input) => self.reader_step(input),
        }
    }

    /// The relay after `events`, in order.
    pub open spec fn run(self, events: Seq<RelayEvent<T>>) -> Self
        decreases events.len(),
    {
        if events.len() == 0 {
            self
        } else {
            self.run(events.drop_last()).apply(events.last())
        }
    }

    /// The relay after the reader loop got `inputs`, in order.
    pub open spec fn read_all(self, inputs: Seq<ReaderInput<T>>) -> Self
        decreases inputs.len(),
    {
        if inputs.len() == 0 {
            self
        } else {
            self.read_all(inputs.drop_last()).reader_step(inputs.last())
        }
    }

    /// The relay after `n` calls of `recv`.
    pub open spec fn recv_n(self, n: nat) -> Self
        decreases n,
    {
        if n == 0 {
            self
        } else {
            self.recv_n((n - 1) as nat).recv()
        }
    }

    /// The relay after the keepalive timer has elapsed `n` times and each
    /// ping was written.
    pub open spec fn keepalive_rounds(self, n: nat) -> Self
        decreases n,
    {
        if n == 0 {
            self
        } else {
            self.keepalive_rounds((n - 1) as nat).writer_step(WriterWake::Keepalive).writer_done(
                WriteOutcome::Written,
            )
        }
    }

    /// What holds of every state that a relay can reach.
    pub open spec fn inv(self) -> bool {
        &&& self.ping_interval_secs >= 1
        &&& (self.state is Unconnected || self.state is Connecting) ==> self.writer is NotStarted
            && !self.outgoing.sender_gone
        &&& self.state is Active <==> self.writer is Running && self.reader is Running
            && !self.outgoing.sender_gone
        &&& (self.writer is NotStarted) == (self.reader is NotStarted)
        &&& self.outgoing.receiver_closed == (self.writer is Exited)
        &&& self.incoming.sender_gone == (self.reader is Exited)
        &&& self.incoming.receiver_closed == self.outgoing.sender_gone
        &&& self.in_flight is Some ==> self.writer is Running
        &&& self.writer is Exited ==> self.outgoing.sender_gone || !all_written(self.attempts)
        &&& self.submitted == messages(attempted(self.attempts)) + self.pending()
            + self.outgoing.queue
        &&& self.forwarded == self.delivered + self.incoming.queue
    }
}

} // verus!
