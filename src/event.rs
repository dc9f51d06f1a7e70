//! Event records: the tagged event code, the time stamp, and the flat
//! `{type, code, value, seconds, microseconds}` shape used by the kernel.
use vstd::prelude::*;

verus! {

/// Event type of synchronization markers.
pub const EV_SYN: u16 = 0;

/// Event type of keys and buttons.
pub const EV_KEY: u16 = 1;

/// Event type of relative axes.
pub const EV_REL: u16 = 2;

/// Code of the synchronization marker that closes a batch of changes.
pub const SYN_REPORT: u16 = 0;

/// Key code of the escape key, reserved for terminating the pipeline.
pub const KEY_ESC: u16 = 1;

/// What an event is about: a key or button, a relative axis, a
/// synchronization marker, or any other event type with its raw code.
#[derive(Clone, Copy, Debug, PartialEq, Eq, Structural)]
pub enum EventCode {
    Sync(u16),
    Key(u16),
    Relative(u16),
    Other(u16, u16),
}

impl EventCode {
    /// Each code has a single form: `Other` never carries a type that has
    /// a variant of its own.
    pub open spec fn wf(self) -> bool {
        match self {
            EventCode::Other(t, _) => t != EV_SYN && t != EV_KEY && t != EV_REL,
            _ => true,
        }
    }

    pub open spec fn spec_from_raw(kind: u16, code: u16) -> EventCode {
        if kind == EV_SYN {
            EventCode::Sync(code)
        } else if kind == EV_KEY {
            EventCode::Key(code)
        } else if kind == EV_REL {
            EventCode::Relative(code)
        } else {
            EventCode::Other(kind, code)
        }
    }

    pub open spec fn spec_to_raw(self) -> (u16, u16) {
        match self {
            EventCode::Sync(c) => (EV_SYN, c),
            EventCode::Key(c) => (EV_KEY, c),
            EventCode::Relative(c) => (EV_REL, c),
            EventCode::Other(t, c) => (t, c),
        }
    }

    /// The code of a raw `(type, code)` pair.
    pub fn from_raw(kind: u16, code: u16) -> (r: EventCode)
        ensures
            r == Self::spec_from_raw(kind, code),
            r.wf(),
            r.spec_to_raw() == (kind, code),
    {
        if kind == EV_SYN {
            EventCode::Sync(code)
        } else if kind == EV_KEY {
            EventCode::Key(code)
        } else if kind == EV_REL {
            EventCode::Relative(code)
        } else {
            EventCode::Other(kind, code)
        }
    }

    /// The raw `(type, code)` pair of this code.
    pub fn to_raw(&self) -> (r: (u16, u16))
        ensures
            r == self.spec_to_raw(),
            self.wf() ==> Self::spec_from_raw(r.0, r.1) == *self,
    {
        match *self {
            EventCode::Sync(c) => (EV_SYN, c),
            EventCode::Key(c) => (EV_KEY, c),
            EventCode::Relative(c) => (EV_REL, c),
            EventCode::Other(t, c) => (t, c),
        }
    }
}

/// Wall-clock time of an event, as seconds and microseconds.
#[derive(Clone, Copy, Debug, PartialEq, Eq, Structural)]
pub struct TimeStamp {
    pub sec: i64,
    pub usec: i64,
}

/// An input event: its code, its value and when it happened.
#[derive(Clone, Copy, Debug, PartialEq, Eq, Structural)]
pub struct RawEvent {
    pub code: EventCode,
    pub value: i32,
    pub time: TimeStamp,
}

/// An event in the flat form that the kernel reads and writes.
#[derive(Clone, Copy, Debug, PartialEq, Eq, Structural)]
pub struct WireEvent {
    pub kind: u16,
    pub code: u16,
    pub value: i32,
    pub sec: i64,
    pub usec: i64,
}

impl RawEvent {
    pub open spec fn spec_from_wire(w: WireEvent) -> RawEvent {
        RawEvent {
            code: EventCode::spec_from_raw(w.kind, w.code),
            value: w.value,
            time: TimeStamp { sec: w.sec, usec: w.usec },
        }
    }

    pub open spec fn spec_to_wire(self) -> WireEvent {
        WireEvent {
            kind: self.code.spec_to_raw().0,
            code: self.code.spec_to_raw().1,
            value: self.value,
            sec: self.time.sec,
            usec: self.time.usec,
        }
    }

    /// The event that a flat record describes.
    pub fn from_wire(w: WireEvent) -> (r: RawEvent)
        ensures
            r == Self::spec_from_wire(w),
            r.code.wf(),
            r.spec_to_wire() == w,
    {
        RawEvent {
            code: EventCode::from_raw(w.kind, w.code),
            value: w.value,
            time: TimeStamp { sec: w.sec, usec: w.usec },
        }
    }

    /// The flat record of this event.
    pub fn to_wire(&self) -> (r: WireEvent)
        ensures
            r == self.spec_to_wire(),
            self.code.wf() ==> Self::spec_from_wire(r) == *self,
    {
        let (kind, code) = self.code.to_raw();
        WireEvent { kind, code, value: self.value, sec: self.time.sec, usec: self.time.usec }
    }
}

} // verus!
