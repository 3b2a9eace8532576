//! The connection driver: the writer loop and the reader loop that a
//! successful handshake starts. Each loop belongs to the caller, which
//! waits, reads and writes; each turn of a loop is a call into the relay,
//! which says what to do and takes note of how it went.

use super::channel::Recv;
use super::model::{
    all_written, attempted, lemma_attempted_push, lemma_dropped_push, lemma_messages_push,
    messages, Attempt, ConnectionState, Frame, LoopState,
};
use super::{History, PragmaWsClient};
use vstd::prelude::*;

verus! {

/// Which of its two events woke the writer loop.
#[derive(Debug, Clone, Copy, PartialEq, Eq, Structural)]
pub enum WriterWake {
    /// The outbound channel may hold a message, or may have been closed.
    Outbound,
    /// The keepalive timer has elapsed.
    Keepalive,
}

/// What the writer loop has to do next.
#[derive(Debug, Clone, PartialEq, Eq)]
pub enum WriterAction<T> {
    /// Serialize this message and write it as a text frame.
    Transmit(T),
    /// Write a ping frame.
    Ping,
    /// Nothing to do: wait for the next event.
    Wait,
    /// Leave the loop.
    Exit,
}

/// How an attempt to put a frame on the wire ended.
#[derive(Debug, Clone, Copy, PartialEq, Eq, Structural)]
pub enum WriteOutcome {
    /// The frame was written.
    Written,
    /// The message could not be serialized and was dropped.
    Unserializable,
    /// The write failed.
    Failed,
}

/// What the reader loop got from the stream, text frames already decoded.
pub enum ReaderInput<T> {
    /// A text frame, with what the decoder made of it.
    Text(Option<T>),
    /// A frame of any other kind.
    Other,
    /// The read failed.
    Failed,
    /// The stream has ended.
    Ended,
}

/// What the reader loop got from the stream.
#[derive(Debug, Clone, PartialEq, Eq)]
pub enum ReadEvent {
    /// A text frame with its text.
    Text(String),
    /// A frame of any other kind: binary, ping, pong or close.
    Other,
    /// The read failed.
    Failed,
    /// The stream has ended.
    Ended,
}

/// The driver side: what the two loops call.
impl<T, D: Fn(String) -> Option<T>> PragmaWsClient<T, D> {
    /// One turn of the writer loop: says what to do after `wake` has woken
    /// the loop.
    pub fn writer_step(&mut self, wake: WriterWake) -> (action: WriterAction<T>)
        requires
            old(self).wf(),
        ensures
            final(self).wf(),
            action == old(self)@.writer_action(wake),
            final(self)@ == old(self)@.writer_step(wake),
    {
        match self.writer {
            LoopState::Running => {},
            _ => {
                return WriterAction::Exit;
            },
        }
        if self.busy {
            return WriterAction::Wait;
        }
        match wake {
            WriterWake::Keepalive => {
                self.busy = true;
                proof {
                    self.history@ = History { in_flight: Some(Frame::Ping), ..self.history@ };
                }
                WriterAction::Ping
            },
            WriterWake::Outbound => match self.outgoing.try_recv() {
                Recv::Message(msg) => {
                    self.busy = true;
                    proof {
                        self.history@ = History {
                            in_flight: Some(Frame::Message(msg)),
                            ..self.history@
                        };
                        assert(self@.submitted =~= messages(attempted(self@.attempts))
                            + self@.pending() + self@.outgoing.queue);
                    }
                    WriterAction::Transmit(msg)
                },
                Recv::Pending => WriterAction::Wait,
                Recv::Closed => {
                    self.exit_writer();
                    WriterAction::Exit
                },
            },
        }
    }

    /// Takes the outcome of the attempt that the last `writer_step` asked
    /// for, and says whether the writer loop goes on. A failed write ends
    /// the loop; a message that could not be serialized is dropped and
    /// the loop goes on. With nothing in flight the call changes nothing.
    pub fn writer_done(&mut self, outcome: WriteOutcome) -> (goes_on: bool)
        requires
            old(self).wf(),
        ensures
            final(self).wf(),
            goes_on == old(self)@.writer_continues(outcome),
            final(self)@ == old(self)@.writer_done(outcome),
    {
        if !self.busy {
            return match self.writer {
                LoopState::Running => true,
                _ => false,
            };
        }
        self.busy = false;
        match outcome {
            WriteOutcome::Unserializable => {
                self.dropped = self.dropped.saturating_add(1);
            },
            _ => {},
        }
        proof {
            let frame = self.history@.in_flight->0;
            let attempt = Attempt { frame, outcome };
            lemma_dropped_push(self.history@.attempts, attempt);
            lemma_attempted_push(self.history@.attempts, attempt);
            lemma_messages_push(attempted(self.history@.attempts), frame);
            self.history@ = History {
                in_flight: None,
                attempts: self.history@.attempts.push(attempt),
                ..self.history@
            };
            assert(self@.submitted =~= messages(attempted(self@.attempts)) + self@.pending()
                + self@.outgoing.queue);
        }
        match outcome {
            WriteOutcome::Failed => {
                assert(!(self@.attempts[self@.attempts.len() - 1].outcome is Written));
                self.exit_writer();
                false
            },
            _ => true,
        }
    }

    /// One turn of the reader loop on a frame that is already decoded:
    /// forwards a decoded message to the inbound channel, ignores every
    /// other frame, and ends the loop when the stream failed or ended.
    /// Says whether the reader loop goes on.
    pub fn reader_deliver(&mut self, input: ReaderInput<T>) -> (goes_on: bool)
        requires
            old(self).wf(),
        ensures
            final(self).wf(),
            goes_on == old(self)@.reader_continues(input),
            final(self)@ == old(self)@.reader_step(input),
    {
        match self.reader {
            LoopState::Running => {},
            _ => {
                return false;
            },
        }
        match input {
            ReaderInput::Text(Some(msg)) => {
                let ghost m = msg;
                match self.incoming.send(msg) {
                    Ok(_) => {
                        proof {
                            self.history@ = History {
                                forwarded: self.history@.forwarded.push(m),
                                ..self.history@
                            };
                            assert(self@.forwarded =~= self@.delivered + self@.incoming.queue);
                        }
                    },
                    Err(_) => {},
                }
                true
            },
            ReaderInput::Text(None) => true,
            ReaderInput::Other => true,
            ReaderInput::Failed | ReaderInput::Ended => {
                self.state = ConnectionState::Closed;
                self.reader = LoopState::Exited;
                self.incoming.drop_sender();
                false
            },
        }
    }

    /// One turn of the reader loop: passes the text of a text frame to the
    /// message handler and goes on as `reader_deliver` does with the
    /// result.
    pub fn reader_step(&mut self, event: ReadEvent) -> (goes_on: bool)
        requires
            old(self).wf(),
        ensures
            final(self).wf(),
            match event {
                ReadEvent::Text(text) => exists|decoded: Option<T>|
                    {
                        &&& (old(self)@.decodes)(text, decoded)
                        &&& goes_on == old(self)@.reader_continues(ReaderInput::Text(decoded))
                        &&& final(self)@ == old(self)@.reader_step(ReaderInput::Text(decoded))
                    },
                ReadEvent::Other => goes_on == old(self)@.reader_continues(ReaderInput::Other)
                    && final(self)@ == old(self)@.reader_step(ReaderInput::Other),
                ReadEvent::Failed => goes_on == old(self)@.reader_continues(ReaderInput::Failed)
                    && final(self)@ == old(self)@.reader_step(ReaderInput::Failed),
                ReadEvent::Ended => goes_on == old(self)@.reader_continues(ReaderInput::Ended)
                    && final(self)@ == old(self)@.reader_step(ReaderInput::Ended),
            },
    {
        match event {
            ReadEvent::Text(text) => {
                let decoded = (self.message_handler)(text);
                let ghost witness = decoded;
                let goes_on = self.reader_deliver(ReaderInput::Text(decoded));
                proof {
                    assert((old(self)@.decodes)(text, witness));
                    assert(final(self)@ == old(self)@.reader_step(ReaderInput::Text(witness)));
                }
                goes_on
            },
            ReadEvent::Other => self.reader_deliver(ReaderInput::Other),
            ReadEvent::Failed => self.reader_deliver(ReaderInput::Failed),
            ReadEvent::Ended => self.reader_deliver(ReaderInput::Ended),
        }
    }

    /// Ends the writer loop: its end of the outbound channel is closed, so
    /// that `send` is refused from now on.
    fn exit_writer(&mut self)
        requires
            old(self).wf(),
            old(self)@.writer is Running,
            old(self)@.in_flight is None,
            old(self)@.outgoing.sender_gone || !all_written(old(self)@.attempts),
        ensures
            final(self).wf(),
            final(self)@ == old(self)@.writer_exited(),
    {
        self.state = ConnectionState::Closed;
        self.writer = LoopState::Exited;
        self.outgoing.close_receiver();
    }
}

} // verus!
