//! Unbounded FIFO channels that connect the application to the connection driver.

use std::collections::VecDeque;
use vstd::prelude::*;

verus! {

/// What a channel holds, as a mathematical value.
pub struct ChannelView<T> {
    /// The buffered messages, oldest first.
    pub queue: Seq<T>,
    /// The sending side has been dropped: nothing more will be enqueued.
    pub sender_gone: bool,
    /// The receiving side has been closed: nothing more is accepted.
    pub receiver_closed: bool,
}

impl<T> ChannelView<T> {
    /// A fresh channel: empty, both sides alive.
    pub open spec fn open() -> Self {
        ChannelView { queue: Seq::empty(), sender_gone: false, receiver_closed: false }
    }

    /// Whether `send` accepts a message.
    pub open spec fn accepts(self) -> bool {
        !self.sender_gone && !self.receiver_closed
    }

    /// Whether a receive on an empty queue reports the end of the channel.
    pub open spec fn finished(self) -> bool {
        self.sender_gone || self.receiver_closed
    }

    /// The channel after `msg` was enqueued.
    pub open spec fn pushed(self, msg: T) -> Self {
        ChannelView { queue: self.queue.push(msg), ..self }
    }

    /// What a non-blocking receive returns.
    pub open spec fn received(self) -> Recv<T> {
        if self.queue.len() > 0 {
            Recv::Message(self.queue[0])
        } else if self.finished() {
            Recv::Closed
        } else {
            Recv::Pending
        }
    }

    /// The channel after a non-blocking receive.
    pub open spec fn after_recv(self) -> Self {
        if self.queue.len() > 0 {
            self.popped()
        } else {
            self
        }
    }

    /// The channel after `msgs` were enqueued, in order.
    pub open spec fn extended(self, msgs: Seq<T>) -> Self {
        ChannelView { queue: self.queue + msgs, ..self }
    }

    /// The channel after its oldest message was taken.
    pub open spec fn popped(self) -> Self {
        ChannelView { queue: self.queue.subrange(1, self.queue.len() as int), ..self }
    }
}

/// The result of a non-blocking receive.
#[derive(Debug, Clone, PartialEq, Eq)]
pub enum Recv<T> {
    /// The oldest buffered message.
    Message(T),
    /// Nothing is buffered, but more may arrive.
    Pending,
    /// Nothing is buffered and nothing more will arrive.
    Closed,
}

/// An unbounded single-direction FIFO queue with a closable end on each side.
pub struct Channel<T> {
    queue: VecDeque<T>,
    sender_gone: bool,
    receiver_closed: bool,
}

impl<T> View for Channel<T> {
    type V = ChannelView<T>;

    closed spec fn view(&self) -> ChannelView<T> {
        ChannelView {
            queue: self.queue@,
            sender_gone: self.sender_gone,
            receiver_closed: self.receiver_closed,
        }
    }
}

impl<T> Channel<T> {
    /// Creates an empty channel with both sides alive.
    pub fn new() -> (c: Self)
        ensures
            c@ == ChannelView::<T>::open(),
    {
        Channel { queue: VecDeque::new(), sender_gone: false, receiver_closed: false }
    }

    /// Enqueues `msg` behind everything already buffered. A channel whose
    /// receiving side is closed, or whose sending side was dropped, hands
    /// the message back and stays as it is.
    pub fn send(&mut self, msg: T) -> (r: Result<(), T>)
        ensures
            old(self)@.accepts() ==> r is Ok && final(self)@ == old(self)@.pushed(msg),
            !old(self)@.accepts() ==> r == Err::<(), T>(msg) && final(self)@ == old(self)@,
    {
        if self.sender_gone || self.receiver_closed {
            Err(msg)
        } else {
            self.queue.push_back(msg);
            Ok(())
        }
    }

    /// Drops the sending side: what is buffered can still be received, and
    /// nothing more is accepted.
    pub fn drop_sender(&mut self)
        ensures
            final(self)@ == (ChannelView { sender_gone: true, ..old(self)@ }),
    {
        self.sender_gone = true;
    }

    /// Closes the receiving side: what is buffered can still be received,
    /// and nothing more is accepted.
    pub fn close_receiver(&mut self)
        ensures
            final(self)@ == (ChannelView { receiver_closed: true, ..old(self)@ }),
    {
        self.receiver_closed = true;
    }

    /// The number of buffered messages.
    pub fn len(&self) -> (n: usize)
        ensures
            n == self@.queue.len(),
    {
        self.queue.len()
    }

    /// Whether nothing is buffered.
    pub fn is_empty(&self) -> (b: bool)
        ensures
            b == (self@.queue.len() == 0),
    {
        self.queue.len() == 0
    }

    /// Whether the sending side has been dropped.
    pub fn sender_gone(&self) -> (b: bool)
        ensures
            b == self@.sender_gone,
    {
        self.sender_gone
    }

    /// Whether the receiving side has been closed.
    pub fn is_closed(&self) -> (b: bool)
        ensures
            b == self@.receiver_closed,
    {
        self.receiver_closed
    }

    /// Takes the oldest buffered message, if any. An empty channel reports
    /// `Closed` once either side is gone and `Pending` otherwise.
    pub fn try_recv(&mut self) -> (r: Recv<T>)
        ensures
            r == old(self)@.received(),
            final(self)@ == old(self)@.after_recv(),
    {
        match self.queue.pop_front() {
            Some(msg) => Recv::Message(msg),
            None => if self.sender_gone || self.receiver_closed {
                Recv::Closed
            } else {
                Recv::Pending
            },
        }
    }
}

} // verus!
