//! What holds of every relay, proved over the state machine that the
//! client's contracts are stated in.

use super::channel::ChannelView;
use super::driver::{ReaderInput, WriteOutcome, WriterAction, WriterWake};
use super::model::{
    all_written, attempted, decoded, lemma_attempted_push, lemma_decoded_push,
    lemma_messages_push, lemma_pings_push, lemma_written_push, messages, ping_frames, pings,
    reads, sends, written, Attempt, ConnectionState, Frame, RelayEvent, RelayView,
};
use vstd::prelude::*;

verus! {

/// A freshly built relay satisfies the invariant.
pub proof fn lemma_init_inv<T>(
    url: Seq<char>,
    api_key: Seq<char>,
    decodes: spec_fn(String, Option<T>) -> bool,
)
    ensures
        RelayView::<T>::init(url, api_key, decodes).inv(),
{
    let m = RelayView::<T>::init(url, api_key, decodes);
    assert(attempted(m.attempts) =~= Seq::empty());
    assert(messages(attempted(m.attempts)) =~= Seq::empty());
    assert(m.submitted =~= messages(attempted(m.attempts)) + m.pending() + m.outgoing.queue);
    assert(m.forwarded =~= m.delivered + m.incoming.queue);
}

/// No event leads out of the invariant.
pub proof fn lemma_apply_preserves_inv<T>(m: RelayView<T>, event: RelayEvent<T>)
    requires
        m.inv(),
    ensures
        m.apply(event).inv(),
{
    let n = m.apply(event);
    match event {
        RelayEvent::Send(msg) => {
            assert(n.submitted =~= messages(attempted(n.attempts)) + n.pending()
                + n.outgoing.queue);
        },
        RelayEvent::Recv => {
            assert(n.forwarded =~= n.delivered + n.incoming.queue);
        },
        RelayEvent::WriterStep(wake) => {
            assert(n.submitted =~= messages(attempted(n.attempts)) + n.pending()
                + n.outgoing.queue);
        },
        RelayEvent::WriterDone(outcome) => {
            if let Some(frame) = m.in_flight {
                let attempt = Attempt { frame, outcome };
                lemma_attempted_push(m.attempts, attempt);
                lemma_messages_push(attempted(m.attempts), frame);
                assert(n.submitted =~= messages(attempted(n.attempts)) + n.pending()
                    + n.outgoing.queue);
                if outcome is Failed {
                    assert(!(n.attempts[m.attempts.len() as int].outcome is Written));
                }
            }
        },
        RelayEvent::ReaderStep(input) => {
            assert(n.forwarded =~= n.delivered + n.incoming.queue);
        },
        _ => {},
    }
    if m.writer is Exited && !m.outgoing.sender_gone {
        let i = choose|i: int|
            0 <= i < m.attempts.len() && !((#[trigger] m.attempts[i]).outcome is Written);
        assert(n.attempts.len() >= m.attempts.len());
        assert(n.attempts[i] == m.attempts[i]);
    }
}

/// Every state that a relay reaches from one that satisfies the invariant
/// satisfies it too.
pub proof fn lemma_run_preserves_inv<T>(m: RelayView<T>, events: Seq<RelayEvent<T>>)
    requires
        m.inv(),
    ensures
        m.run(events).inv(),
    decreases events.len(),
{
    if events.len() > 0 {
        lemma_run_preserves_inv(m, events.drop_last());
        lemma_apply_preserves_inv(m.run(events.drop_last()), events.last());
    }
}

/// Where every attempt was written, the wire holds every attempted frame.
pub proof fn lemma_written_all<T>(attempts: Seq<Attempt<T>>)
    requires
        all_written(attempts),
    ensures
        written(attempts) == attempted(attempts),
    decreases attempts.len(),
{
    if attempts.len() > 0 {
        let rest = attempts.drop_last();
        assert forall|i: int| 0 <= i < rest.len() implies (
        #[trigger] rest[i]).outcome is Written by {
            assert(rest[i] == attempts[i]);
        }
        lemma_written_all(rest);
        assert(attempts.last() == attempts[attempts.len() - 1]);
    }
}

/// An event adds to the log of attempts at its end, if at all.
pub proof fn lemma_apply_extends_attempts<T>(m: RelayView<T>, event: RelayEvent<T>)
    ensures
        m.attempts.len() <= m.apply(event).attempts.len(),
        m.apply(event).attempts.take(m.attempts.len() as int) == m.attempts,
{
    let n = m.apply(event);
    assert(n.attempts.take(m.attempts.len() as int) =~= m.attempts);
}

/// The rank of a state in the order in which a client passes through them.
pub open spec fn state_rank<T>(m: RelayView<T>) -> nat {
    match m.state {
        ConnectionState::Unconnected => 0,
        ConnectionState::Connecting => 1,
        ConnectionState::Active => 2,
        ConnectionState::Closed => 3,
    }
}

/// The connection state only ever moves forward, from `Unconnected` by way
/// of `Connecting` and `Active` to `Closed`: no event takes a client back,
/// and `Closed` is final.
pub proof fn lemma_state_only_advances<T>(m: RelayView<T>, events: Seq<RelayEvent<T>>)
    ensures
        state_rank(m) <= state_rank(m.run(events)),
        m.state is Closed ==> m.run(events).state is Closed,
    decreases events.len(),
{
    if events.len() > 0 {
        lemma_state_only_advances(m, events.drop_last());
    }
}

/// A loop that has been started is never started again, and a loop that
/// has exited stays so.
pub proof fn lemma_loops_only_advance<T>(m: RelayView<T>, events: Seq<RelayEvent<T>>)
    requires
        m.inv(),
    ensures
        !(m.writer is NotStarted) ==> !(m.run(events).writer is NotStarted),
        m.writer is Exited ==> m.run(events).writer is Exited,
        m.reader is Exited ==> m.run(events).reader is Exited,
    decreases events.len(),
{
    if events.len() > 0 {
        lemma_loops_only_advance(m, events.drop_last());
        lemma_run_preserves_inv(m, events.drop_last());
    }
}

/// Order preservation, for a state: where every attempt of the writer loop
/// ended with the frame on the wire, the messages on the wire, then the
/// message in flight, then the messages still queued are exactly the
/// messages that `send` accepted, in call order. Pings stand between
/// messages on the wire and change nothing in their order.
pub proof fn lemma_wire_keeps_order<T>(m: RelayView<T>)
    requires
        m.inv(),
        all_written(m.attempts),
    ensures
        messages(m.wire()) + m.pending() + m.outgoing.queue == m.submitted,
        m.in_flight is None && m.outgoing.queue.len() == 0 ==> messages(m.wire()) == m.submitted,
{
    lemma_written_all(m.attempts);
    if m.in_flight is None && m.outgoing.queue.len() == 0 {
        assert(messages(m.wire()) + m.pending() + m.outgoing.queue =~= messages(m.wire()));
    }
}

/// While the application keeps its handles and no write has failed, `send`
/// accepts every message.
proof fn lemma_sends_accepted<T>(
    url: Seq<char>,
    api_key: Seq<char>,
    decodes: spec_fn(String, Option<T>) -> bool,
    events: Seq<RelayEvent<T>>,
)
    requires
        forall|i: int| 0 <= i < events.len() ==> !(#[trigger] events[i] is Close),
        all_written(RelayView::<T>::init(url, api_key, decodes).run(events).attempts),
    ensures
        RelayView::<T>::init(url, api_key, decodes).run(events).inv(),
        !RelayView::<T>::init(url, api_key, decodes).run(events).outgoing.sender_gone,
        RelayView::<T>::init(url, api_key, decodes).run(events).submitted == sends(events),
    decreases events.len(),
{
    let start = RelayView::<T>::init(url, api_key, decodes);
    lemma_init_inv(url, api_key, decodes);
    if events.len() == 0 {
        assert(start.submitted =~= sends(events));
    } else {
        let before = start.run(events.drop_last());
        let after = before.apply(events.last());
        lemma_apply_extends_attempts(before, events.last());
        assert forall|i: int| 0 <= i < before.attempts.len() implies (
        #[trigger] before.attempts[i]).outcome is Written by {
            assert(before.attempts[i] == after.attempts.take(before.attempts.len() as int)[i]);
            assert(after.attempts[i].outcome is Written);
        }
        assert forall|i: int| 0 <= i < events.drop_last().len() implies !(
        #[trigger] events.drop_last()[i] is Close) by {
            assert(events.drop_last()[i] == events[i]);
        }
        lemma_sends_accepted(url, api_key, decodes, events.drop_last());
        lemma_apply_preserves_inv(before, events.last());
        assert(events.last() == events[events.len() - 1]);
    }
}

/// Order preservation, for a run: take any sequence of events on a fresh
/// client in which the application keeps its handles. If every attempt of
/// the writer loop ended with the frame on the wire, then the messages on
/// the wire, the message in flight and the messages still queued are, in
/// this order, exactly the messages passed to `send`, in call order.
pub proof fn lemma_order_preservation<T>(
    url: Seq<char>,
    api_key: Seq<char>,
    decodes: spec_fn(String, Option<T>) -> bool,
    events: Seq<RelayEvent<T>>,
)
    requires
        forall|i: int| 0 <= i < events.len() ==> !(#[trigger] events[i] is Close),
        all_written(RelayView::<T>::init(url, api_key, decodes).run(events).attempts),
    ensures
        ({
            let m = RelayView::<T>::init(url, api_key, decodes).run(events);
            &&& messages(m.wire()) + m.pending() + m.outgoing.queue == sends(events)
            &&& m.in_flight is None && m.outgoing.queue.len() == 0 ==> messages(m.wire())
                == sends(events)
        }),
{
    lemma_sends_accepted(url, api_key, decodes, events);
    lemma_wire_keeps_order(RelayView::<T>::init(url, api_key, decodes).run(events));
}

/// Decode filtering: while the reader loop runs and the application keeps
/// its handles, a run of frames adds to the inbound channel exactly the
/// messages that its text frames decoded to, in order of arrival. A frame
/// that is no text or does not decode changes nothing at all.
pub proof fn lemma_decode_filtering<T>(m: RelayView<T>, inputs: Seq<ReaderInput<T>>)
    requires
        m.reader is Running,
        !m.incoming.receiver_closed,
        forall|i: int|
            0 <= i < inputs.len() ==> (#[trigger] inputs[i]) is Text || inputs[i] is Other,
    ensures
        m.read_all(inputs) == (RelayView {
            incoming: m.incoming.extended(decoded(inputs)),
            forwarded: m.forwarded + decoded(inputs),
            ..m
        }),
    decreases inputs.len(),
{
    let target = RelayView {
        incoming: m.incoming.extended(decoded(inputs)),
        forwarded: m.forwarded + decoded(inputs),
        ..m
    };
    if inputs.len() == 0 {
        assert(m.incoming.queue + decoded(inputs) =~= m.incoming.queue);
        assert(m.forwarded + decoded(inputs) =~= m.forwarded);
        assert(m.read_all(inputs).incoming == target.incoming);
    } else {
        let rest = inputs.drop_last();
        assert forall|i: int| 0 <= i < rest.len() implies (#[trigger] rest[i]) is Text
            || rest[i] is Other by {
            assert(rest[i] == inputs[i]);
        }
        lemma_decode_filtering(m, rest);
        assert(inputs.last() == inputs[inputs.len() - 1]);
        let before = m.read_all(rest);
        let after = before.reader_step(inputs.last());
        match inputs.last() {
            ReaderInput::Text(Some(msg)) => {
                assert(after.incoming.queue =~= m.incoming.queue + decoded(inputs));
                assert(after.forwarded =~= m.forwarded + decoded(inputs));
            },
            _ => {},
        }
        assert(after.incoming == target.incoming);
    }
}

/// Inbound order, for a run: take a relay whose reader loop runs and whose
/// application keeps its handles, and any sequence of events in which the
/// handles are kept and the stream neither fails nor ends. Whatever else
/// happens in between, the messages that `recv` has returned, followed by
/// the messages still buffered, have grown by exactly the messages that
/// the text frames decoded to, in order of arrival.
pub proof fn lemma_inbound_order<T>(m: RelayView<T>, events: Seq<RelayEvent<T>>)
    requires
        m.inv(),
        m.reader is Running,
        !m.incoming.receiver_closed,
        forall|i: int|
            0 <= i < events.len() ==> !(#[trigger] events[i] is Close) && !(events[i]
                matches RelayEvent::ReaderStep(input) && (input is Failed || input is Ended)),
    ensures
        ({
            let end = m.run(events);
            &&& end.reader is Running
            &&& !end.incoming.receiver_closed
            &&& end.forwarded == m.forwarded + decoded(reads(events))
            &&& end.delivered + end.incoming.queue == m.delivered + m.incoming.queue + decoded(
                reads(events),
            )
        }),
    decreases events.len(),
{
    let end = m.run(events);
    lemma_run_preserves_inv(m, events);
    if events.len() == 0 {
        assert(m.forwarded + decoded(reads(events)) =~= m.forwarded);
    } else {
        let rest = events.drop_last();
        assert forall|i: int| 0 <= i < rest.len() implies !(#[trigger] rest[i] is Close) && !(
        rest[i] matches RelayEvent::ReaderStep(input) && (input is Failed || input is Ended)) by {
            assert(rest[i] == events[i]);
        }
        lemma_inbound_order(m, rest);
        lemma_run_preserves_inv(m, rest);
        assert(events.last() == events[events.len() - 1]);
        let before = m.run(rest);
        match events.last() {
            RelayEvent::ReaderStep(input) => {
                lemma_decoded_push(reads(rest), input);
                assert(end.forwarded =~= m.forwarded + decoded(reads(events)));
            },
            _ => {},
        }
    }
    assert(m.delivered + m.incoming.queue + decoded(reads(events)) =~= m.forwarded + decoded(
        reads(events),
    ));
}

/// Inbound order: `n` calls of `recv` on a channel that buffers at least
/// `n` messages return the `n` oldest, oldest first, and leave the rest.
pub proof fn lemma_recv_in_order<T>(m: RelayView<T>, n: nat)
    requires
        n <= m.incoming.queue.len(),
    ensures
        m.recv_n(n) == (RelayView {
            incoming: ChannelView {
                queue: m.incoming.queue.skip(n as int),
                ..m.incoming
            },
            delivered: m.delivered + m.incoming.queue.take(n as int),
            ..m
        }),
    decreases n,
{
    if n == 0 {
        assert(m.incoming.queue.skip(0) =~= m.incoming.queue);
        assert(m.delivered + m.incoming.queue.take(0) =~= m.delivered);
    } else {
        lemma_recv_in_order(m, (n - 1) as nat);
        let before = m.recv_n((n - 1) as nat);
        let after = before.recv();
        assert(after.incoming.queue =~= m.incoming.queue.skip(n as int));
        assert(after.delivered =~= m.delivered + m.incoming.queue.take(n as int));
    }
}

/// Decode filtering, end to end: with nothing buffered inbound, after a
/// run of frames the application receives exactly the messages that the
/// text frames decoded to, in order of arrival, and then finds the channel
/// empty.
pub proof fn lemma_recv_yields_decoded<T>(m: RelayView<T>, inputs: Seq<ReaderInput<T>>)
    requires
        m.reader is Running,
        !m.incoming.receiver_closed,
        m.incoming.queue.len() == 0,
        forall|i: int|
            0 <= i < inputs.len() ==> (#[trigger] inputs[i]) is Text || inputs[i] is Other,
    ensures
        ({
            let end = m.read_all(inputs).recv_n(decoded(inputs).len());
            &&& end.delivered == m.delivered + decoded(inputs)
            &&& end.incoming.queue.len() == 0
        }),
{
    lemma_decode_filtering(m, inputs);
    let filled = m.read_all(inputs);
    assert(filled.incoming.queue =~= decoded(inputs));
    lemma_recv_in_order(filled, decoded(inputs).len());
    assert(filled.incoming.queue.take(decoded(inputs).len() as int) =~= decoded(inputs));
}

/// Single connect: once `connect` has been called on a client, whatever
/// happens afterwards, every further `connect` is refused and changes
/// nothing; and once the loops have been started, no report of a
/// handshake starts them again.
pub proof fn lemma_single_connect<T>(m: RelayView<T>, events: Seq<RelayEvent<T>>)
    requires
        m.inv(),
        !(m.state is Unconnected),
    ensures
        ({
            let later = m.run(events);
            &&& !(later.state is Unconnected)
            &&& later.connect() == later
            &&& !(m.writer is NotStarted) ==> forall|succeeded: bool|
                later.handshake_done(succeeded) == later
        }),
{
    lemma_state_only_advances(m, events);
    lemma_loops_only_advance(m, events);
    lemma_run_preserves_inv(m, events);
}

/// Closure propagation: a failed write ends the writer loop and leaves
/// the reader loop and the inbound channel as they were. From then on,
/// whatever happens, `send` is refused and changes nothing.
pub proof fn lemma_closure_propagation<T>(m: RelayView<T>, events: Seq<RelayEvent<T>>, msg: T)
    requires
        m.inv(),
        m.in_flight is Some,
    ensures
        ({
            let failed = m.writer_done(WriteOutcome::Failed);
            let later = failed.run(events);
            &&& failed.writer is Exited
            &&& same_inbound(m, failed)
            &&& later.writer is Exited
            &&& !later.outgoing.accepts()
            &&& later.send(msg) == later
        }),
{
    let failed = m.writer_done(WriteOutcome::Failed);
    lemma_apply_preserves_inv(m, RelayEvent::WriterDone(WriteOutcome::Failed));
    lemma_loops_only_advance(failed, events);
    lemma_run_preserves_inv(failed, events);
}

/// Whether the outbound side of `b` is that of `a`.
pub open spec fn same_outbound<T>(a: RelayView<T>, b: RelayView<T>) -> bool {
    &&& b.writer == a.writer
    &&& b.in_flight == a.in_flight
    &&& b.outgoing == a.outgoing
    &&& b.submitted == a.submitted
    &&& b.attempts == a.attempts
}

/// Whether the inbound side of `b` is that of `a`.
pub open spec fn same_inbound<T>(a: RelayView<T>, b: RelayView<T>) -> bool {
    &&& b.reader == a.reader
    &&& b.incoming == a.incoming
    &&& b.forwarded == a.forwarded
    &&& b.delivered == a.delivered
}

/// The two directions are independent: no turn of the reader loop and no
/// `recv` touches the outbound side, and no turn of the writer loop and no
/// `send` touches the inbound side. Only the connection state is shared:
/// it closes when either loop ends.
pub proof fn lemma_directions_independent<T>(
    m: RelayView<T>,
    input: ReaderInput<T>,
    wake: WriterWake,
    outcome: WriteOutcome,
    msg: T,
)
    ensures
        same_outbound(m, m.reader_step(input)),
        same_outbound(m, m.recv()),
        same_inbound(m, m.writer_step(wake)),
        same_inbound(m, m.writer_done(outcome)),
        same_inbound(m, m.send(msg)),
{
}

/// `pings` of a sequence followed by `n` pings.
proof fn lemma_pings_append<T>(frames: Seq<Frame<T>>, n: nat)
    ensures
        pings(frames + ping_frames(n)) == pings(frames) + n,
    decreases n,
{
    if n == 0 {
        assert(frames + ping_frames::<T>(0) =~= frames);
    } else {
        lemma_pings_append(frames, (n - 1) as nat);
        assert(frames + ping_frames::<T>(n) =~= (frames + ping_frames::<T>((n - 1) as nat)).push(
            Frame::Ping,
        ));
        lemma_pings_push(frames + ping_frames::<T>((n - 1) as nat), Frame::Ping);
    }
}

/// Keepalive independence: each time the keepalive timer elapses the
/// writer loop is told to write one ping, whatever the outbound channel
/// holds. After `n` such rounds the wire has grown by exactly `n` pings
/// and by nothing else, and nothing but the log of attempts has changed:
/// no call of `send` is involved.
pub proof fn lemma_keepalive_independence<T>(m: RelayView<T>, n: nat)
    requires
        m.writer_ready(),
    ensures
        ({
            let after = m.keepalive_rounds(n);
            &&& after.writer_ready()
            &&& after.writer_action(WriterWake::Keepalive) == WriterAction::<T>::Ping
            &&& after.wire() == m.wire() + ping_frames(n)
            &&& pings(after.wire()) == pings(m.wire()) + n
            &&& messages(after.wire()) == messages(m.wire())
            &&& after == (RelayView { attempts: after.attempts, ..m })
        }),
    decreases n,
{
    if n == 0 {
        assert(m.wire() + ping_frames::<T>(0) =~= m.wire());
    } else {
        lemma_keepalive_independence(m, (n - 1) as nat);
        let before = m.keepalive_rounds((n - 1) as nat);
        let after = m.keepalive_rounds(n);
        let attempt = Attempt { frame: Frame::<T>::Ping, outcome: WriteOutcome::Written };
        assert(after.attempts == before.attempts.push(attempt));
        lemma_written_push(before.attempts, attempt);
        assert(after.wire() =~= m.wire() + ping_frames(n));
        lemma_pings_append(m.wire(), n);
        lemma_messages_push(before.wire(), Frame::<T>::Ping);
    }
}

} // verus!
