//! The per-code dispatch table and the capture step that routes each event
//! read from the grabbed device.
use vstd::prelude::*;

use crate::codec::EventSink;
use crate::event::{EventCode, RawEvent, KEY_ESC};

verus! {

/// Reacts to one captured event: sends zero or more events into `tx`, in the
/// order they should reach the virtual device, and says whether the
/// pipeline should stop. State kept across calls lives inside the handler.
pub trait KeyHandler {
    fn handle(&self, ev: RawEvent, tx: &mut EventSink) -> (terminate: bool);
}

/// The code whose key, pressed or released, ends the pipeline.
pub open spec fn is_termination(code: EventCode) -> bool {
    code == EventCode::Key(KEY_ESC)
}

/// Where a captured event goes.
#[derive(Clone, Copy, Debug, PartialEq, Eq, Structural)]
pub enum Route {
    Terminate,
    Handler,
    PassThrough,
}

/// The route of an event with `code` under a table bound to `keys`, with
/// or without a catch-all handler: the termination key first, then a bound
/// handler, then the catch-all, else pass-through.
pub open spec fn route_of(keys: Seq<EventCode>, catch_all: bool, code: EventCode) -> Route {
    if is_termination(code) {
        Route::Terminate
    } else if keys.contains(code) || catch_all {
        Route::Handler
    } else {
        Route::PassThrough
    }
}

/// Handlers keyed by event code, each code bound at most once, and an
/// optional catch-all handler for the codes that none is bound to.
pub struct DispatchTable<H> {
    entries: Vec<(EventCode, H)>,
    catch_all: Option<H>,
}

impl<H: KeyHandler> DispatchTable<H> {
    /// The bound codes, in the order they were bound.
    pub closed spec fn keys(&self) -> Seq<EventCode> {
        self.entries@.map_values(|e: (EventCode, H)| e.0)
    }

    pub closed spec fn catches_all(&self) -> bool {
        self.catch_all is Some
    }

    pub closed spec fn wf(&self) -> bool {
        self.keys().no_duplicates()
    }

    pub fn new() -> (r: DispatchTable<H>)
        ensures
            r.wf(),
            r.keys() == Seq::<EventCode>::empty(),
            !r.catches_all(),
    {
        let r = DispatchTable { entries: Vec::new(), catch_all: None };
        assert(r.keys() =~= Seq::<EventCode>::empty());
        r
    }

    /// Binds `handler` to `code`. A code that is bound already keeps its
    /// handler, and the new one is handed back.
    pub fn bind(&mut self, code: EventCode, handler: H) -> (r: Result<(), H>)
        requires
            old(self).wf(),
        ensures
            final(self).wf(),
            r is Ok <==> !old(self).keys().contains(code),
            r is Ok ==> final(self).keys() == old(self).keys().push(code),
            r is Err ==> final(self).keys() == old(self).keys(),
            final(self).catches_all() == old(self).catches_all(),
    {
        match self.find(code) {
            Some(_) => Err(handler),
            None => {
                self.entries.push((code, handler));
                assert(self.keys() =~= old(self).keys().push(code));
                proof {
                    assert forall|i: int, j: int|
                        0 <= i < j < self.keys().len() implies self.keys()[i] != self.keys()[j] by {
                        if j == self.keys().len() - 1 {
                            assert(old(self).keys().contains(old(self).keys()[i]));
                        }
                    }
                }
                Ok(())
            },
        }
    }

    /// Sets the handler for every code that no handler is bound to. A table
    /// that has one keeps it, and the new one is handed back.
    pub fn bind_all(&mut self, handler: H) -> (r: Result<(), H>)
        requires
            old(self).wf(),
        ensures
            final(self).wf(),
            r is Ok <==> !old(self).catches_all(),
            final(self).catches_all(),
            final(self).keys() == old(self).keys(),
    {
        if self.catch_all.is_some() {
            Err(handler)
        } else {
            self.catch_all = Some(handler);
            Ok(())
        }
    }

    pub fn is_bound(&self, code: EventCode) -> (r: bool)
        ensures
            r == self.keys().contains(code),
    {
        self.find(code).is_some()
    }

    /// The position of the entry bound to `code`.
    fn find(&self, code: EventCode) -> (r: Option<usize>)
        ensures
            r is None <==> !self.keys().contains(code),
            r matches Some(i) ==> i < self.keys().len() && self.keys()[i as int] == code,
    {
        let mut i: usize = 0;
        while i < self.entries.len()
            invariant
                i <= self.entries@.len(),
                self.keys().len() == self.entries@.len(),
                forall|j: int| 0 <= j < i ==> self.keys()[j] != code,
            decreases self.entries@.len() - i,
        {
            if self.entries[i].0 == code {
                return Some(i);
            }
            i = i + 1;
        }
        proof {
            if self.keys().contains(code) {
                let k = choose|k: int| 0 <= k < self.keys().len() && self.keys()[k] == code;
                assert(self.keys()[k] == code);
            }
        }
        None
    }

    /// Where an event with `code` goes.
    pub fn route(&self, code: EventCode) -> (r: Route)
        ensures
            r == route_of(self.keys(), self.catches_all(), code),
    {
        if code == EventCode::Key(KEY_ESC) {
            Route::Terminate
        } else if self.is_bound(code) || self.catch_all.is_some() {
            Route::Handler
        } else {
            Route::PassThrough
        }
    }
}

/// What one capture step did with the result of one read.
pub enum Captured {
    /// The read failed, or capture had stopped: nothing to forward.
    Ignored,
    /// No handler is bound to the event's code: it goes on unchanged.
    Forwarded(RawEvent),
    /// The bound handler ran; `sent` is what it sent, in order.
    Handled { sent: EventSink, terminate: bool },
    /// The termination key was read.
    Terminated,
}

/// The outcomes that a capture step may have, given the bound codes and
/// catch-all, whether capture was still running, and what the read gave.
pub open spec fn capture_outcome(
    keys: Seq<EventCode>,
    catch_all: bool,
    running: bool,
    read: Option<RawEvent>,
    r: Captured,
) -> bool {
    match read {
        Some(ev) if running => match route_of(keys, catch_all, ev.code) {
            Route::Terminate => r is Terminated,
            Route::PassThrough => r matches Captured::Forwarded(e) && e == ev,
            Route::Handler => r is Handled,
        },
        _ => r is Ignored,
    }
}

/// Whether capture goes on after a step with outcome `r`.
pub open spec fn runs_after(running: bool, r: Captured) -> bool {
    running && !(r is Terminated) && !(r matches Captured::Handled { terminate, .. } && terminate)
}

/// The capturing side of the pipeline: the dispatch table, and whether
/// capture is still going on.
pub struct CaptureLoop<H> {
    table: DispatchTable<H>,
    running: bool,
}

impl<H: KeyHandler> CaptureLoop<H> {
    pub closed spec fn keys(&self) -> Seq<EventCode> {
        self.table.keys()
    }

    pub closed spec fn catches_all(&self) -> bool {
        self.table.catches_all()
    }

    pub closed spec fn running(&self) -> bool {
        self.running
    }

    pub closed spec fn wf(&self) -> bool {
        self.table.wf()
    }

    /// A running capture over `table`.
    pub fn new(table: DispatchTable<H>) -> (r: CaptureLoop<H>)
        requires
            table.wf(),
        ensures
            r.wf(),
            r.running(),
            r.keys() == table.keys(),
            r.catches_all() == table.catches_all(),
    {
        CaptureLoop { table, running: true }
    }

    pub fn is_running(&self) -> (r: bool)
        ensures
            r == self.running(),
    {
        self.running
    }

    /// Routes the result of one read. A failed read is skipped. The
    /// termination key stops capture without consulting the table; a bound
    /// handler gets the event and a fresh sink; any other event is forwarded
    /// unchanged. Once stopped, capture takes no further event.
    pub fn on_read(&mut self, read: Option<RawEvent>) -> (r: Captured)
        requires
            old(self).wf(),
        ensures
            final(self).wf(),
            final(self).keys() == old(self).keys(),
            final(self).catches_all() == old(self).catches_all(),
            capture_outcome(old(self).keys(), old(self).catches_all(), old(self).running(), read, r),
            final(self).running() == runs_after(old(self).running(), r),
    {
        if !self.running {
            return Captured::Ignored;
        }
        match read {
            None => Captured::Ignored,
            Some(ev) => match self.table.route(ev.code) {
                Route::Terminate => {
                    self.running = false;
                    Captured::Terminated
                },
                Route::PassThrough => Captured::Forwarded(ev),
                Route::Handler => {
                    let (sent, terminate) = self.table.dispatch(ev);
                    if terminate {
                        self.running = false;
                    }
                    Captured::Handled { sent, terminate }
                },
            },
        }
    }
}

impl<H: KeyHandler> DispatchTable<H> {
    /// Runs the handler bound to `ev`'s code, or else the catch-all, with a
    /// fresh sink, and returns what it sent and whether it asked to stop.
    fn dispatch(&self, ev: RawEvent) -> (r: (EventSink, bool))
        requires
            self.keys().contains(ev.code) || self.catches_all(),
    {
        let mut sent = EventSink::new();
        let terminate = match self.find(ev.code) {
            Some(i) => self.entries[i].1.handle(ev, &mut sent),
            None => self.catch_all.as_ref().unwrap().handle(ev, &mut sent),
        };
        (sent, terminate)
    }
}

} // verus!
