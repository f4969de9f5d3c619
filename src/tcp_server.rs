//! TCP: the listener's decision on each accepted connection, and the echo
//! worker that owns one connection for its whole life.
use vstd::prelude::*;
use vstd::slice::{slice_subrange, slice_to_vec};
use vstd::utf8::{decode_utf8, valid_utf8};

use crate::text::utf8_text;
use crate::{Failure, BUFFER_LEN};

verus! {

/// What the listener does with the outcome of one `accept`.
pub enum ListenerStep<S> {
    /// Hand the connection to a new worker of its own, then accept again.
    Spawn(S),
    /// Stop serving, with this failure.
    Stop(Failure),
}

/// The listener's decision: an accepted connection goes, whole, to a new
/// worker; a failed accept ends the server.
pub fn on_accept<S>(accepted: Option<S>) -> (r: ListenerStep<S>)
    ensures
        accepted matches Some(s) ==> r == ListenerStep::Spawn(s),
        accepted is None ==> r == ListenerStep::<S>::Stop(Failure::Accept),
{
    match accepted {
        Some(s) => ListenerStep::Spawn(s),
        None => ListenerStep::Stop(Failure::Accept),
    }
}

/// Where an echo worker stands. `Closed` and `Failed` are terminal.
#[derive(Clone, Copy, Debug, PartialEq, Eq, Structural)]
pub enum ConnState {
    Open,
    /// The peer closed its side in order.
    Closed,
    /// A read, a write or the decoding of a payload failed.
    Failed(Failure),
}

/// What a worker observes on its connection: the bytes of one read (none
/// at all when the peer has closed), or a failed read or write.
pub enum ConnEvent {
    Read(Seq<u8>),
    IoError,
}

/// One move of the worker: its next state and the bytes it writes back.
pub open spec fn echo_step(s: ConnState, ev: ConnEvent) -> (ConnState, Seq<u8>) {
    match s {
        ConnState::Open => match ev {
            ConnEvent::Read(data) => if data.len() == 0 {
                (ConnState::Closed, Seq::empty())
            } else if valid_utf8(data) {
                (ConnState::Open, data)
            } else {
                (ConnState::Failed(Failure::Decode), data)
            },
            ConnEvent::IoError => (ConnState::Failed(Failure::ConnectionIo), Seq::empty()),
        },
        _ => (s, Seq::empty()),
    }
}

/// The worker run over a series of events: its last state, and everything
/// it wrote back, in order.
pub open spec fn echo_run(s: ConnState, evs: Seq<ConnEvent>) -> (ConnState, Seq<u8>)
    decreases evs.len(),
{
    if evs.len() == 0 {
        (s, Seq::empty())
    } else {
        let prev = echo_run(s, evs.drop_last());
        let step = echo_step(prev.0, evs.last());
        (step.0, prev.1 + step.1)
    }
}

/// Every byte that the peer sent over a series of events, in order.
pub open spec fn sent_bytes(evs: Seq<ConnEvent>) -> Seq<u8>
    decreases evs.len(),
{
    if evs.len() == 0 {
        Seq::empty()
    } else {
        let last = match evs.last() {
            ConnEvent::Read(data) => data,
            ConnEvent::IoError => Seq::empty(),
        };
        sent_bytes(evs.drop_last()) + last
    }
}

/// What the worker does after one move.
pub struct EchoStep {
    /// The worker's state after the move.
    pub next: ConnState,
    /// The bytes to write back (none when nothing is written).
    pub reply: Vec<u8>,
    /// The payload as text, to be shown, where it is UTF-8.
    pub text: Option<String>,
}

/// The worker's move on a read of `nbytes` bytes into `buffer`, where
/// `text` is what decoding those bytes as UTF-8 gave. Only the bytes read
/// are written back, decoded or not; a payload that is not text then ends
/// the worker.
pub fn on_read_decoded(state: ConnState, buffer: &[u8], nbytes: usize, text: Option<String>) -> (r: EchoStep)
    requires
        nbytes <= buffer@.len(),
    ensures
        state != ConnState::Open ==> r.next == state && r.reply@.len() == 0 && r.text is None,
        state == ConnState::Open && nbytes == 0 ==> r.next == ConnState::Closed && r.reply@.len()
            == 0 && r.text is None,
        state == ConnState::Open && nbytes > 0 ==> r.reply@ == buffer@.subrange(0, nbytes as int)
            && r.text == text && (text is Some ==> r.next == ConnState::Open) && (text is None
            ==> r.next == ConnState::Failed(Failure::Decode)),
{
    if state != ConnState::Open {
        return EchoStep { next: state, reply: Vec::new(), text: None };
    }
    if nbytes == 0 {
        return EchoStep { next: ConnState::Closed, reply: Vec::new(), text: None };
    }
    let reply = slice_to_vec(slice_subrange(buffer, 0, nbytes));
    let next = match text {
        Some(_) => ConnState::Open,
        None => ConnState::Failed(Failure::Decode),
    };
    EchoStep { next, reply, text }
}

/// The worker's move on a read of `nbytes` bytes into `buffer`.
pub fn on_read(state: ConnState, buffer: &[u8], nbytes: usize) -> (r: EchoStep)
    requires
        nbytes <= buffer@.len(),
    ensures
        (r.next, r.reply@) == echo_step(state, ConnEvent::Read(buffer@.subrange(0, nbytes as int))),
        r.text is Some <==> (state == ConnState::Open && nbytes > 0 && valid_utf8(
            buffer@.subrange(0, nbytes as int),
        )),
        r.text matches Some(t) ==> t@ == decode_utf8(buffer@.subrange(0, nbytes as int)),
{
    let text = if state == ConnState::Open && nbytes > 0 {
        utf8_text(slice_subrange(buffer, 0, nbytes))
    } else {
        None
    };
    on_read_decoded(state, buffer, nbytes, text)
}

/// The worker's next state after a failed read or write.
pub fn on_io_error(state: ConnState) -> (r: ConnState)
    ensures
        r == echo_step(state, ConnEvent::IoError).0,
{
    match state {
        ConnState::Open => ConnState::Failed(Failure::ConnectionIo),
        _ => state,
    }
}

/// Two workers run side by side over one interleaving of their events, an
/// event marked `true` being one of the first connection: their last states
/// and what each wrote back.
pub open spec fn echo_run_pair(a: ConnState, b: ConnState, sched: Seq<(bool, ConnEvent)>) -> (
    (ConnState, Seq<u8>),
    (ConnState, Seq<u8>),
)
    decreases sched.len(),
{
    if sched.len() == 0 {
        ((a, Seq::empty()), (b, Seq::empty()))
    } else {
        let prev = echo_run_pair(a, b, sched.drop_last());
        let ev = sched.last().1;
        if sched.last().0 {
            let step = echo_step(prev.0.0, ev);
            ((step.0, prev.0.1 + step.1), prev.1)
        } else {
            let step = echo_step(prev.1.0, ev);
            (prev.0, (step.0, prev.1.1 + step.1))
        }
    }
}

/// The events of an interleaving that belong to the first connection
/// (`first`) or to the second.
pub open spec fn events_of(sched: Seq<(bool, ConnEvent)>, first: bool) -> Seq<ConnEvent>
    decreases sched.len(),
{
    if sched.len() == 0 {
        Seq::empty()
    } else {
        let prev = events_of(sched.drop_last(), first);
        if sched.last().0 == first {
            prev.push(sched.last().1)
        } else {
            prev
        }
    }
}

/// A read of between one and `BUFFER_LEN` bytes is written back exactly,
/// whatever the bytes are.
pub proof fn law_echo_exact(data: Seq<u8>)
    requires
        0 < data.len() <= BUFFER_LEN,
    ensures
        echo_step(ConnState::Open, ConnEvent::Read(data)).1 == data,
{
}

/// Over a series of non-empty text reads, the worker stays open and what it
/// writes back is exactly what was sent, in the same order.
pub proof fn law_echo_stream(evs: Seq<ConnEvent>)
    requires
        forall|i: int|
            0 <= i < evs.len() ==> (#[trigger] evs[i] matches ConnEvent::Read(d) && 0 < d.len()
                <= BUFFER_LEN && valid_utf8(d)),
    ensures
        echo_run(ConnState::Open, evs) == (ConnState::Open, sent_bytes(evs)),
    decreases evs.len(),
{
    if evs.len() > 0 {
        let init = evs.drop_last();
        assert forall|i: int| 0 <= i < init.len() implies (#[trigger] init[i] matches ConnEvent::Read(
            d,
        ) && 0 < d.len() <= BUFFER_LEN && valid_utf8(d)) by {
            assert(init[i] == evs[i]);
        }
        law_echo_stream(init);
        assert(evs[evs.len() - 1] == evs.last());
    }
}

/// A read of no bytes, the peer's orderly close, ends the worker without a
/// failure and without a write; a worker that has ended writes nothing more
/// and stays where it ended.
pub proof fn law_close_detection(evs: Seq<ConnEvent>)
    ensures
        echo_step(ConnState::Open, ConnEvent::Read(Seq::empty())) == (
        ConnState::Closed,
        Seq::<u8>::empty(),
        ),
        echo_run(ConnState::Closed, evs) == (ConnState::Closed, Seq::<u8>::empty()),
    decreases evs.len(),
{
    if evs.len() > 0 {
        law_close_detection(evs.drop_last());
        assert(Seq::<u8>::empty() + Seq::<u8>::empty() =~= Seq::<u8>::empty());
    }
}

/// Two connections served side by side do not touch each other: whatever
/// the interleaving, each worker's state and replies are those of its own
/// events alone, so one connection's close or failure leaves the other as
/// it was.
pub proof fn law_connections_isolated(a: ConnState, b: ConnState, sched: Seq<(bool, ConnEvent)>)
    ensures
        echo_run_pair(a, b, sched) == (echo_run(a, events_of(sched, true)), echo_run(
            b,
            events_of(sched, false),
        )),
    decreases sched.len(),
{
    if sched.len() > 0 {
        let init = sched.drop_last();
        law_connections_isolated(a, b, init);
        let ea = events_of(init, true);
        let eb = events_of(init, false);
        assert(ea.push(sched.last().1).drop_last() =~= ea);
        assert(eb.push(sched.last().1).drop_last() =~= eb);
    }
}

} // verus!
