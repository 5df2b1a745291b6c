//! The decisions of the multiplexer that merges the resize-notification
//! source and the terminal byte source into one stream.
//!
//! Each request for an event starts with [`start`]. When it says `Wait`,
//! the caller blocks on a combined readiness wait over both sources (the
//! resize source first, the data source second), retries it through
//! [`crate::retry::settle`], and hands the readiness it reports to
//! [`after_wake`].

use crate::buffer::{BufferView, BufferedInput};
use vstd::prelude::*;

verus! {

/// Which of the two sources a completed readiness wait reported readable.
#[derive(Clone, Copy)]
pub struct Readiness {
    /// The resize-notification source has at least one queued notification.
    pub resize: bool,
    /// The terminal byte source has input (or an error) to report.
    pub data: bool,
}

/// How a request for an event begins.
#[derive(Clone, Copy, PartialEq, Eq, Debug)]
pub enum Start {
    /// Decode from the buffer at once, without waiting.
    Decode,
    /// Block on the combined readiness wait first.
    Wait,
}

/// What to do after a completed readiness wait.
#[derive(Clone, Copy, PartialEq, Eq, Debug)]
pub enum WakeAction {
    /// Drain the resize source and produce one `WinChEvent`.
    DrainResize,
    /// Pull a byte from the buffer and decode it.
    Decode,
}

/// A request skips the wait exactly when a byte is held, or the last refill
/// filled the whole buffer so that more input is likely already there.
pub open spec fn start_of(v: BufferView) -> Start {
    if v.likely_more || v.pending.len() > 0 {
        Start::Decode
    } else {
        Start::Wait
    }
}

/// The resize source is looked at first, and wins whenever it is ready.
pub open spec fn wake_action_of(r: Readiness) -> WakeAction {
    if r.resize {
        WakeAction::DrainResize
    } else {
        WakeAction::Decode
    }
}

/// The readiness a wait reports after `queued` resize notifications arrived
/// since the resize source was last drained.
pub open spec fn readiness_after(queued: nat, data: bool) -> Readiness {
    Readiness { resize: queued > 0, data }
}

/// Decides how a request for an event begins.
pub fn start(reader: &BufferedInput) -> (r: Start)
    requires
        reader.wf(),
    ensures
        r == start_of(reader@),
{
    if reader.might_have_buffered_data() {
        Start::Decode
    } else {
        Start::Wait
    }
}

/// Decides what a completed readiness wait leads to.
pub fn after_wake(ready: Readiness) -> (r: WakeAction)
    ensures
        r == wake_action_of(ready),
{
    if ready.resize {
        WakeAction::DrainResize
    } else {
        WakeAction::Decode
    }
}

/// Priority of resize: whenever the resize source is ready at a wake, the
/// next event is the resize, whether or not data is ready too.
pub proof fn lemma_resize_priority(data: bool)
    ensures
        wake_action_of(Readiness { resize: true, data }) == WakeAction::DrainResize,
{
}

/// Coalescing of resizes: a wake after any number `k >= 1` of queued
/// notifications leads to one drain and one resize event, the same as
/// after a single notification.
pub proof fn lemma_resize_coalesced(k: nat, data: bool)
    requires
        k >= 1,
    ensures
        wake_action_of(readiness_after(k, data)) == wake_action_of(readiness_after(1, data)),
        wake_action_of(readiness_after(k, data)) == WakeAction::DrainResize,
{
}

} // verus!
