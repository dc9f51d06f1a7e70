use std::cell::Cell;

use input_remap::channel::{EventChannel, Received};
use input_remap::codec::{key_event, syn_event, EventSink};
use input_remap::dispatch::{CaptureLoop, Captured, DispatchTable, KeyHandler, Route};
use input_remap::event::{EventCode, RawEvent, TimeStamp, WireEvent, KEY_ESC, SYN_REPORT};
use input_remap::{passthrough_ev, send_key, send_syn};

const KEY_A: u16 = 30;
const KEY_B: u16 = 48;

fn ev(code: EventCode, value: i32, sec: i64, usec: i64) -> RawEvent {
    RawEvent { code, value, time: TimeStamp { sec, usec } }
}

/// Sends a key tap of its own code on a press, and counts its calls.
struct Tap {
    calls: Cell<u32>,
}

impl KeyHandler for Tap {
    fn handle(&self, ev: RawEvent, tx: &mut EventSink) -> bool {
        self.calls.set(self.calls.get() + 1);
        if let EventCode::Key(k) = ev.code {
            if ev.value == 1 {
                send_key(tx, k, 1);
                send_syn(tx);
                send_key(tx, k, 0);
                send_syn(tx);
            }
        }
        false
    }
}

/// Swallows every event; asks to stop when `stop` is set.
struct Swallow {
    stop: bool,
    calls: Cell<u32>,
}

impl KeyHandler for Swallow {
    fn handle(&self, _ev: RawEvent, _tx: &mut EventSink) -> bool {
        self.calls.set(self.calls.get() + 1);
        self.stop
    }
}

/// Turns each event into the same event of another key.
struct Remap {
    to: u16,
}

impl KeyHandler for Remap {
    fn handle(&self, ev: RawEvent, tx: &mut EventSink) -> bool {
        passthrough_ev(RawEvent { code: EventCode::Key(self.to), ..ev }, tx);
        false
    }
}

fn drain(ch: &mut EventChannel) -> Vec<RawEvent> {
    let mut out = Vec::new();
    while let Received::Event(e) = ch.recv() {
        out.push(e);
    }
    out
}

#[test]
fn pass_through_key_down_without_handler() {
    let table: DispatchTable<Tap> = DispatchTable::new();
    let mut cap = CaptureLoop::new(table);
    let mut ch = EventChannel::new();
    let down = ev(EventCode::Key(KEY_A), 1, 1_700_000_000, 250_000);
    let syn = ev(EventCode::Sync(SYN_REPORT), 0, 1_700_000_000, 250_000);
    let r = cap.on_read(Some(down));
    assert!(matches!(r, Captured::Forwarded(e) if e == down));
    ch.accept(r);
    ch.accept(cap.on_read(Some(syn)));
    assert_eq!(ch.recv(), Received::Event(down));
    assert_eq!(ch.recv(), Received::Event(syn));
    assert_eq!(ch.recv(), Received::Empty);
    assert!(cap.is_running());
}

#[test]
fn pass_through_keeps_code_value_and_time() {
    let mut table = DispatchTable::new();
    assert!(table.bind(EventCode::Key(KEY_B), Tap { calls: Cell::new(0) }).is_ok());
    let mut cap = CaptureLoop::new(table);
    let mut ch = EventChannel::new();
    let captured = vec![
        ev(EventCode::Relative(0), -3, 12, 999_999),
        ev(EventCode::Key(KEY_A), 2, 13, 0),
        ev(EventCode::Other(4, 4), 458756, 14, 17),
    ];
    for e in captured.iter() {
        ch.accept(cap.on_read(Some(*e)));
    }
    assert_eq!(drain(&mut ch), captured);
}

#[test]
fn handler_macro_emits_four_events_in_order() {
    let mut table = DispatchTable::new();
    assert!(table.bind(EventCode::Key(KEY_A), Tap { calls: Cell::new(0) }).is_ok());
    let mut cap = CaptureLoop::new(table);
    let mut ch = EventChannel::new();
    let r = cap.on_read(Some(ev(EventCode::Key(KEY_A), 1, 100, 5)));
    assert!(matches!(r, Captured::Handled { terminate: false, .. }));
    ch.accept(r);
    let out = drain(&mut ch);
    let shape: Vec<(EventCode, i32)> = out.iter().map(|e| (e.code, e.value)).collect();
    assert_eq!(
        shape,
        vec![
            (EventCode::Key(KEY_A), 1),
            (EventCode::Sync(SYN_REPORT), 0),
            (EventCode::Key(KEY_A), 0),
            (EventCode::Sync(SYN_REPORT), 0),
        ]
    );
    assert!(cap.is_running());
    assert!(!ch.is_closed());
}

#[test]
fn bound_key_is_suppressed_unless_sent() {
    let mut table = DispatchTable::new();
    let h = Swallow { stop: false, calls: Cell::new(0) };
    assert!(table.bind(EventCode::Key(KEY_A), h).is_ok());
    let mut cap = CaptureLoop::new(table);
    let mut ch = EventChannel::new();
    for value in 0..3 {
        ch.accept(cap.on_read(Some(ev(EventCode::Key(KEY_A), value, 1, 1))));
    }
    assert_eq!(ch.pending(), 0);
    assert_eq!(ch.recv(), Received::Empty);
}

#[test]
fn remapping_handler_sends_transformed_event() {
    let mut table = DispatchTable::new();
    assert!(table.bind(EventCode::Key(KEY_A), Remap { to: KEY_B }).is_ok());
    let mut cap = CaptureLoop::new(table);
    let mut ch = EventChannel::new();
    ch.accept(cap.on_read(Some(ev(EventCode::Key(KEY_A), 1, 7, 8))));
    assert_eq!(drain(&mut ch), vec![ev(EventCode::Key(KEY_B), 1, 7, 8)]);
}

#[test]
fn termination_key_stops_without_consulting_table() {
    for value in [0, 1, 2] {
        let mut table = DispatchTable::new();
        assert!(table.bind(EventCode::Key(KEY_ESC), Tap { calls: Cell::new(0) }).is_ok());
        assert_eq!(table.route(EventCode::Key(KEY_ESC)), Route::Terminate);
        let mut cap = CaptureLoop::new(table);
        let mut ch = EventChannel::new();
        let r = cap.on_read(Some(ev(EventCode::Key(KEY_ESC), value, 3, 4)));
        assert!(matches!(r, Captured::Terminated));
        ch.accept(r);
        assert!(!cap.is_running());
        assert!(ch.is_closed());
        assert_eq!(ch.recv(), Received::Disconnected);
    }
}

#[test]
fn no_capture_after_termination() {
    let table: DispatchTable<Tap> = DispatchTable::new();
    let mut cap = CaptureLoop::new(table);
    assert!(matches!(cap.on_read(Some(ev(EventCode::Key(KEY_ESC), 1, 0, 0))), Captured::Terminated));
    let r = cap.on_read(Some(ev(EventCode::Key(KEY_A), 1, 0, 0)));
    assert!(matches!(r, Captured::Ignored));
    assert!(!cap.is_running());
}

#[test]
fn failed_read_is_skipped() {
    let table: DispatchTable<Tap> = DispatchTable::new();
    let mut cap = CaptureLoop::new(table);
    assert!(matches!(cap.on_read(None), Captured::Ignored));
    assert!(cap.is_running());
}

#[test]
fn handler_can_stop_pipeline_and_its_events_drain() {
    let mut table = DispatchTable::new();
    assert!(table.bind(EventCode::Key(KEY_B), Swallow { stop: true, calls: Cell::new(0) }).is_ok());
    let mut cap = CaptureLoop::new(table);
    let mut ch = EventChannel::new();
    let first = ev(EventCode::Key(KEY_A), 1, 1, 0);
    ch.accept(cap.on_read(Some(first)));
    let r = cap.on_read(Some(ev(EventCode::Key(KEY_B), 1, 1, 1)));
    assert!(matches!(r, Captured::Handled { terminate: true, .. }));
    ch.accept(r);
    assert!(!cap.is_running());
    assert_eq!(ch.recv(), Received::Event(first));
    assert_eq!(ch.recv(), Received::Disconnected);
}

#[test]
fn channel_is_first_in_first_out() {
    let mut ch = EventChannel::new();
    let sent: Vec<RawEvent> = (0..10).map(|i| ev(EventCode::Key(i as u16), i, i as i64, 0)).collect();
    for e in sent.iter() {
        assert!(ch.send(*e));
    }
    assert_eq!(ch.pending(), 10);
    assert_eq!(drain(&mut ch), sent);
}

#[test]
fn closed_channel_drains_before_disconnecting() {
    let mut ch = EventChannel::new();
    let a = ev(EventCode::Key(KEY_A), 1, 1, 1);
    let b = ev(EventCode::Key(KEY_A), 0, 1, 2);
    assert!(ch.send(a));
    assert!(ch.send(b));
    ch.close();
    assert!(!ch.send(a));
    assert_eq!(ch.recv(), Received::Event(a));
    assert_eq!(ch.recv(), Received::Event(b));
    assert_eq!(ch.recv(), Received::Disconnected);
    assert_eq!(ch.recv(), Received::Disconnected);
}

#[test]
fn duplicate_binding_is_refused() {
    let mut table = DispatchTable::new();
    assert!(table.bind(EventCode::Key(KEY_A), Remap { to: 1 }).is_ok());
    assert!(table.bind(EventCode::Key(KEY_A), Remap { to: 2 }).is_err());
    assert!(table.is_bound(EventCode::Key(KEY_A)));
    assert!(!table.is_bound(EventCode::Relative(KEY_A)));
    assert_eq!(table.route(EventCode::Key(KEY_A)), Route::Handler);
    assert_eq!(table.route(EventCode::Key(KEY_B)), Route::PassThrough);
}

#[test]
fn synthesized_events_differ_only_in_time() {
    let a = key_event(KEY_A, 1);
    let b = key_event(KEY_A, 1);
    assert_eq!(a.code, b.code);
    assert_eq!(a.value, b.value);
    assert_eq!(a.code, EventCode::Key(KEY_A));
    assert_eq!(a.value, 1);
}

#[test]
fn synthesized_events_carry_current_time() {
    let k = key_event(KEY_B, 0);
    assert_eq!(k.code, EventCode::Key(KEY_B));
    assert_eq!(k.value, 0);
    assert!(k.time.sec > 1_600_000_000);
    assert!(k.time.usec >= 0 && k.time.usec < 1_000_000);
    let s = syn_event();
    assert_eq!(s.code, EventCode::Sync(SYN_REPORT));
    assert_eq!(s.value, 0);
    assert!(s.time.sec > 1_600_000_000);
}

#[test]
fn sink_keeps_send_order() {
    let mut tx = EventSink::new();
    let e = ev(EventCode::Relative(8), -1, 2, 3);
    passthrough_ev(e, &mut tx);
    send_key(&mut tx, KEY_B, 1);
    send_syn(&mut tx);
    assert_eq!(tx.len(), 3);
    let v = tx.to_vec();
    assert_eq!(v[0], e);
    assert_eq!((v[1].code, v[1].value), (EventCode::Key(KEY_B), 1));
    assert_eq!((v[2].code, v[2].value), (EventCode::Sync(SYN_REPORT), 0));
}

#[test]
fn event_codes_map_to_raw_pairs() {
    assert_eq!(EventCode::from_raw(0, 0), EventCode::Sync(0));
    assert_eq!(EventCode::from_raw(1, 30), EventCode::Key(30));
    assert_eq!(EventCode::from_raw(2, 8), EventCode::Relative(8));
    assert_eq!(EventCode::from_raw(4, 4), EventCode::Other(4, 4));
    assert_eq!(EventCode::Key(30).to_raw(), (1, 30));
    assert_eq!(EventCode::Relative(11).to_raw(), (2, 11));
    assert_eq!(EventCode::Other(17, 2).to_raw(), (17, 2));
}

#[test]
fn wire_records_round_trip() {
    let w = WireEvent { kind: 1, code: 30, value: 1, sec: 1_700_000_000, usec: 42 };
    let e = RawEvent::from_wire(w);
    assert_eq!(e, ev(EventCode::Key(30), 1, 1_700_000_000, 42));
    assert_eq!(e.to_wire(), w);
}

#[test]
fn catch_all_handles_unbound_codes_only() {
    let mut table = DispatchTable::new();
    assert!(table.bind(EventCode::Key(KEY_A), Remap { to: KEY_B }).is_ok());
    assert!(table.bind_all(Remap { to: 99 }).is_ok());
    assert!(table.bind_all(Remap { to: 98 }).is_err());
    assert_eq!(table.route(EventCode::Relative(0)), Route::Handler);
    assert_eq!(table.route(EventCode::Key(KEY_ESC)), Route::Terminate);
    let mut cap = CaptureLoop::new(table);
    let mut ch = EventChannel::new();
    ch.accept(cap.on_read(Some(ev(EventCode::Key(KEY_A), 1, 0, 1))));
    ch.accept(cap.on_read(Some(ev(EventCode::Relative(0), 5, 0, 2))));
    assert!(matches!(cap.on_read(Some(ev(EventCode::Key(KEY_ESC), 0, 0, 3))), Captured::Terminated));
    assert_eq!(
        drain(&mut ch),
        vec![ev(EventCode::Key(KEY_B), 1, 0, 1), ev(EventCode::Key(99), 5, 0, 2)]
    );
}
