//! Construction of time-stamped events for handlers that synthesize input,
//! and the sink that handlers send their events into.
use vstd::prelude::*;

use crate::event::{EventCode, RawEvent, WireEvent, EV_KEY, EV_SYN, SYN_REPORT};

verus! {

/// Relies on evdev::InputEvent::new_now: the record keeps the given type,
/// code and value, and its time is the system clock at the call, with the
/// microseconds taken from `Duration::subsec_micros` (below one million).
#[verifier::external_body]
fn input_event_now(kind: u16, code: u16, value: i32) -> (r: WireEvent)
    ensures
        r.kind == kind,
        r.code == code,
        r.value == value,
        0 <= r.usec < 1_000_000,
{
    let ev = evdev::InputEvent::new_now(evdev::EventType(kind), code, value);
    let inner = ev.as_ref();
    WireEvent {
        kind: inner.type_,
        code: inner.code,
        value: inner.value,
        sec: inner.time.tv_sec as i64,
        usec: inner.time.tv_usec as i64,
    }
}

/// A time stamp whose microseconds lie within one second.
pub open spec fn valid_time(e: RawEvent) -> bool {
    0 <= e.time.usec < 1_000_000
}

/// A key-state event for `key` with `value`, stamped with the current time.
pub fn key_event(key: u16, value: i32) -> (r: RawEvent)
    ensures
        r.code == EventCode::Key(key),
        r.value == value,
        valid_time(r),
{
    RawEvent::from_wire(input_event_now(EV_KEY, key, value))
}

/// A synchronization report, stamped with the current time.
pub fn syn_event() -> (r: RawEvent)
    ensures
        r.code == EventCode::Sync(SYN_REPORT),
        r.value == 0,
        valid_time(r),
{
    RawEvent::from_wire(input_event_now(EV_SYN, SYN_REPORT, 0))
}

/// Two events made by the same constructor from the same code and value
/// can differ in their time stamps only.
pub proof fn lemma_synthesized_differ_only_in_time(a: RawEvent, b: RawEvent, key: u16, value: i32)
    requires
        a.code == EventCode::Key(key) && a.value == value,
        b.code == EventCode::Key(key) && b.value == value,
    ensures
        a.code == b.code,
        a.value == b.value,
        a.time == b.time ==> a == b,
{
}

/// The ordered events that a handler sends while it handles one event.
pub struct EventSink {
    events: Vec<RawEvent>,
}

impl View for EventSink {
    type V = Seq<RawEvent>;

    closed spec fn view(&self) -> Seq<RawEvent> {
        self.events@
    }
}

impl EventSink {
    pub fn new() -> (r: EventSink)
        ensures
            r@ == Seq::<RawEvent>::empty(),
    {
        EventSink { events: Vec::new() }
    }

    /// Appends `ev` after the events already sent.
    pub fn send(&mut self, ev: RawEvent)
        ensures
            final(self)@ == old(self)@.push(ev),
    {
        self.events.push(ev);
    }

    pub fn len(&self) -> (r: usize)
        ensures
            r == self@.len(),
    {
        self.events.len()
    }

    /// The events sent so far, in order.
    pub fn to_vec(&self) -> (r: Vec<RawEvent>)
        ensures
            r@ == self@,
    {
        self.events.clone()
    }

    /// Gives up the events sent so far, in order.
    pub fn into_vec(self) -> (r: Vec<RawEvent>)
        ensures
            r@ == self@,
    {
        self.events
    }
}

/// Forwards `ev` unchanged: code, value and time stamp.
pub fn passthrough_ev(ev: RawEvent, tx: &mut EventSink)
    ensures
        final(tx)@ == old(tx)@.push(ev),
{
    tx.send(ev);
}

/// Sends a fresh key-state event for `key` with `value`.
pub fn send_key(tx: &mut EventSink, key: u16, value: i32)
    ensures
        final(tx)@.len() == old(tx)@.len() + 1,
        final(tx)@.drop_last() == old(tx)@,
        final(tx)@.last().code == EventCode::Key(key),
        final(tx)@.last().value == value,
        valid_time(final(tx)@.last()),
{
    let ev = key_event(key, value);
    tx.send(ev);
    assert(final(tx)@.drop_last() =~= old(tx)@);
}

/// Sends a fresh synchronization report.
pub fn send_syn(tx: &mut EventSink)
    ensures
        final(tx)@.len() == old(tx)@.len() + 1,
        final(tx)@.drop_last() == old(tx)@,
        final(tx)@.last().code == EventCode::Sync(SYN_REPORT),
        final(tx)@.last().value == 0,
        valid_time(final(tx)@.last()),
{
    let ev = syn_event();
    tx.send(ev);
    assert(final(tx)@.drop_last() =~= old(tx)@);
}

} // verus!
