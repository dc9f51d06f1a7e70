//! The ordered, unbounded hand-off between the capturing and the emitting
//! side. The capturing side appends and finally closes it; the emitting
//! side takes events from the front until it is closed and empty.
use vstd::prelude::*;

use std::collections::VecDeque;

use crate::dispatch::Captured;
use crate::event::RawEvent;

verus! {

/// What the emitting side gets when it asks for the next event.
#[derive(Clone, Copy, Debug, PartialEq, Eq, Structural)]
pub enum Received {
    /// The oldest pending event.
    Event(RawEvent),
    /// Nothing pending yet, and more may come.
    Empty,
    /// Nothing pending, and nothing more will come.
    Disconnected,
}

/// The state of a channel: the pending events, oldest first, and whether
/// the capturing side has closed it.
pub type ChannelState = (Seq<RawEvent>, bool);

/// One send: a closed channel takes nothing more.
pub open spec fn send_step(v: ChannelState, ev: RawEvent) -> ChannelState {
    if v.1 {
        v
    } else {
        (v.0.push(ev), false)
    }
}

/// Sends of each event of `s`, in order.
pub open spec fn send_all(v: ChannelState, s: Seq<RawEvent>) -> ChannelState
    decreases s.len(),
{
    if s.len() == 0 {
        v
    } else {
        send_step(send_all(v, s.drop_last()), s.last())
    }
}

/// One receive: the oldest pending event, else whether more may come.
pub open spec fn recv_step(v: ChannelState) -> (Received, ChannelState) {
    if v.0.len() > 0 {
        (Received::Event(v.0[0]), (v.0.drop_first(), v.1))
    } else if v.1 {
        (Received::Disconnected, v)
    } else {
        (Received::Empty, v)
    }
}

/// What `n` receives in a row deliver.
pub open spec fn deliveries(v: ChannelState, n: nat) -> Seq<Received>
    decreases n,
{
    if n == 0 {
        Seq::empty()
    } else {
        seq![recv_step(v).0] + deliveries(recv_step(v).1, (n - 1) as nat)
    }
}

/// How the outcome of a capture step changes the channel: forwarded and
/// handler-sent events are appended in order, and the channel closes when
/// capture stops.
pub open spec fn accept_step(v: ChannelState, c: Captured) -> ChannelState {
    if v.1 {
        v
    } else {
        match c {
            Captured::Ignored => v,
            Captured::Forwarded(ev) => (v.0.push(ev), false),
            Captured::Handled { sent, terminate } => (v.0 + sent@, terminate),
            Captured::Terminated => (v.0, true),
        }
    }
}

pub struct EventChannel {
    queue: VecDeque<RawEvent>,
    closed: bool,
}

impl View for EventChannel {
    type V = ChannelState;

    closed spec fn view(&self) -> ChannelState {
        (self.queue@, self.closed)
    }
}

impl EventChannel {
    pub fn new() -> (r: EventChannel)
        ensures
            r@ == (Seq::<RawEvent>::empty(), false),
    {
        EventChannel { queue: VecDeque::new(), closed: false }
    }

    /// Appends `ev`, unless the channel is closed; says whether it did.
    pub fn send(&mut self, ev: RawEvent) -> (r: bool)
        ensures
            final(self)@ == send_step(old(self)@, ev),
            r == !old(self)@.1,
    {
        if self.closed {
            false
        } else {
            self.queue.push_back(ev);
            true
        }
    }

    /// No more events will be sent; those pending are still delivered.
    pub fn close(&mut self)
        ensures
            final(self)@ == (old(self)@.0, true),
    {
        self.closed = true;
    }

    pub fn is_closed(&self) -> (r: bool)
        ensures
            r == self@.1,
    {
        self.closed
    }

    pub fn pending(&self) -> (r: usize)
        ensures
            r == self@.0.len(),
    {
        self.queue.len()
    }

    /// Takes in the outcome of one capture step.
    pub fn accept(&mut self, c: Captured)
        ensures
            final(self)@ == accept_step(old(self)@, c),
    {
        if self.closed {
            return;
        }
        match c {
            Captured::Ignored => {},
            Captured::Forwarded(ev) => {
                self.queue.push_back(ev);
            },
            Captured::Handled { sent, terminate } => {
                let events = sent.into_vec();
                let mut i: usize = 0;
                while i < events.len()
                    invariant
                        !self.closed,
                        i <= events@.len(),
                        self.queue@ == old(self)@.0 + events@.subrange(0, i as int),
                    decreases events@.len() - i,
                {
                    self.queue.push_back(events[i]);
                    i = i + 1;
                    assert(self.queue@ =~= old(self)@.0 + events@.subrange(0, i as int));
                }
                assert(events@.subrange(0, i as int) =~= events@);
                self.closed = terminate;
            },
            Captured::Terminated => {
                self.closed = true;
            },
        }
    }

    /// Takes the oldest pending event, or says whether more may come.
    pub fn recv(&mut self) -> (r: Received)
        ensures
            (r, final(self)@) == recv_step(old(self)@),
    {
        match self.queue.pop_front() {
            Some(ev) => {
                assert(old(self)@.0.drop_first() =~= self.queue@);
                Received::Event(ev)
            },
            None => if self.closed {
                Received::Disconnected
            } else {
                Received::Empty
            },
        }
    }
}

/// Events as the emitting side receives them.
pub open spec fn as_received(s: Seq<RawEvent>) -> Seq<Received> {
    s.map_values(|e: RawEvent| Received::Event(e))
}

proof fn lemma_send_all_appends(v: ChannelState, s: Seq<RawEvent>)
    requires
        !v.1,
    ensures
        send_all(v, s) == (v.0 + s, false),
    decreases s.len(),
{
    if s.len() > 0 {
        lemma_send_all_appends(v, s.drop_last());
        assert(v.0 + s.drop_last().push(s.last()) =~= v.0 + s);
        assert(s.drop_last().push(s.last()) =~= s);
    } else {
        assert(v.0 + s =~= v.0);
    }
}

proof fn lemma_deliver_pending(q: Seq<RawEvent>, closed: bool)
    ensures
        deliveries((q, closed), q.len()) == as_received(q),
        closed ==> deliveries((q, closed), q.len() + 1) == as_received(q).push(
            Received::Disconnected,
        ),
    decreases q.len(),
{
    if q.len() > 0 {
        lemma_deliver_pending(q.drop_first(), closed);
        assert(as_received(q) =~= seq![Received::Event(q[0])] + as_received(q.drop_first()));
        assert(as_received(q).push(Received::Disconnected) =~= seq![Received::Event(q[0])]
            + as_received(q.drop_first()).push(Received::Disconnected));
    } else {
        assert(as_received(q) =~= Seq::<Received>::empty());
        assert(deliveries((q, closed), 0) =~= Seq::<Received>::empty());
        if closed {
            assert(deliveries((q, closed), 1) =~= seq![Received::Disconnected]);
        }
    }
}

/// Events sent one after another into an open channel are received after
/// the ones already pending, each exactly once and in the order sent.
pub proof fn lemma_fifo(v: ChannelState, s: Seq<RawEvent>)
    requires
        !v.1,
    ensures
        deliveries(send_all(v, s), v.0.len() + s.len()) == as_received(v.0 + s),
{
    lemma_send_all_appends(v, s);
    lemma_deliver_pending(v.0 + s, false);
}

/// Once the channel is closed, every pending event is still received, in
/// order, and only then does the emitting side see the disconnection.
pub proof fn lemma_drain_before_exit(v: ChannelState)
    requires
        v.1,
    ensures
        deliveries(v, v.0.len() + 1) == as_received(v.0).push(Received::Disconnected),
        forall|n: nat| n <= v.0.len() ==> !deliveries(v, n).contains(Received::Disconnected),
{
    lemma_deliver_pending(v.0, true);
    assert forall|n: nat| n <= v.0.len() implies !deliveries(v, n).contains(
        Received::Disconnected,
    ) by {
        lemma_deliveries_prefix(v, n, v.0.len());
        if deliveries(v, n).contains(Received::Disconnected) {
            let k = choose|k: int| 0 <= k < deliveries(v, n).len() && deliveries(v, n)[k] == Received::Disconnected;
            assert(deliveries(v, v.0.len())[k] == Received::Disconnected);
            assert(as_received(v.0)[k] == Received::Event(v.0[k]));
        }
    }
}

proof fn lemma_deliveries_prefix(v: ChannelState, n: nat, m: nat)
    requires
        n <= m,
    ensures
        deliveries(v, n).len() == n,
        deliveries(v, m).len() == m,
        deliveries(v, n) == deliveries(v, m).subrange(0, n as int),
    decreases n,
{
    lemma_deliveries_len(v, n);
    lemma_deliveries_len(v, m);
    if n > 0 {
        lemma_deliveries_prefix(recv_step(v).1, (n - 1) as nat, (m - 1) as nat);
        assert(deliveries(v, n) =~= deliveries(v, m).subrange(0, n as int));
    } else {
        assert(deliveries(v, n) =~= deliveries(v, m).subrange(0, n as int));
    }
}

proof fn lemma_deliveries_len(v: ChannelState, n: nat)
    ensures
        deliveries(v, n).len() == n,
    decreases n,
{
    if n > 0 {
        lemma_deliveries_len(recv_step(v).1, (n - 1) as nat);
    }
}

} // verus!
