//! Laws of the whole pipeline: how one capture step, taken into the
//! channel, decides what the virtual device is handed.
use vstd::prelude::*;

use crate::channel::{accept_step, ChannelState};
use crate::dispatch::{capture_outcome, is_termination, runs_after, Captured};
use crate::event::{EventCode, RawEvent};

verus! {

/// An event with no bound handler, under a table with no catch-all, other
/// than the termination key, is
/// handed on exactly as captured (code, value and time stamp), after the
/// events already pending.
pub proof fn lemma_pass_through_identity(
    keys: Seq<EventCode>,
    ev: RawEvent,
    r: Captured,
    v: ChannelState,
)
    requires
        capture_outcome(keys, false, true, Some(ev), r),
        !keys.contains(ev.code),
        !is_termination(ev.code),
        !v.1,
    ensures
        accept_step(v, r) == (v.0.push(ev), false),
{
}

/// An event whose code has a handler, its own or the catch-all, is not
/// handed on by itself:
/// exactly the events the handler sent are appended, in the order sent, and
/// nothing when it sent none.
pub proof fn lemma_suppression(
    keys: Seq<EventCode>,
    catch_all: bool,
    ev: RawEvent,
    r: Captured,
    v: ChannelState,
)
    requires
        capture_outcome(keys, catch_all, true, Some(ev), r),
        keys.contains(ev.code) || catch_all,
        !is_termination(ev.code),
        !v.1,
    ensures
        r matches Captured::Handled { sent, terminate } && accept_step(v, r) == (
        v.0 + sent@, terminate),
{
}

/// The termination key, with any value and whatever the table binds, stops
/// capture and closes the channel with the pending events kept; any later
/// read is not captured.
pub proof fn lemma_termination(
    keys: Seq<EventCode>,
    catch_all: bool,
    ev: RawEvent,
    r: Captured,
    later: Option<RawEvent>,
    r_later: Captured,
    v: ChannelState,
)
    requires
        capture_outcome(keys, catch_all, true, Some(ev), r),
        is_termination(ev.code),
        capture_outcome(keys, catch_all, runs_after(true, r), later, r_later),
    ensures
        r is Terminated,
        !runs_after(true, r),
        r_later is Ignored,
        accept_step(v, r) == (v.0, true),
{
}

} // verus!
