//! Mathematical model of the facade's process-wide state and of the
//! transitions a registration or a log call performs on it.

use vstd::prelude::*;
use crate::level::{Level, LevelFilter, gate_passes};
use crate::record::RecordView;

verus! {

/// Image of the facade's process-wide state: the build-time ceiling, the
/// run-time ceiling, and the records the active sink has received so far
/// (`None` while no sink is registered).
pub struct FacadeView {
    pub static_max: LevelFilter,
    pub dynamic_max: LevelFilter,
    pub sink: Option<Seq<RecordView>>,
}

/// Whether a level clears both ceilings of the given state.
pub open spec fn gate(v: FacadeView, level: Level) -> bool {
    gate_passes(level, v.static_max, v.dynamic_max)
}

/// One dispatch: the record is appended to what the active sink has
/// received; with no sink registered, dispatch is a no-op.
pub open spec fn dispatch_step(v: FacadeView, r: RecordView) -> FacadeView {
    match v.sink {
        Some(s) => FacadeView { static_max: v.static_max, dynamic_max: v.dynamic_max, sink: Some(s.push(r)) },
        None => v,
    }
}

/// One gated log call: the record is dispatched only when its level clears
/// both ceilings; otherwise the state is untouched.
pub open spec fn log_step(v: FacadeView, r: RecordView) -> FacadeView {
    if gate(v, r.level) {
        dispatch_step(v, r)
    } else {
        v
    }
}

/// One registration: the given sink, with whatever it has already
/// received, becomes the active one, and the run-time ceiling is set;
/// last writer wins, the build-time ceiling never moves.
pub open spec fn register_step(v: FacadeView, received: Seq<RecordView>, max_level: LevelFilter) -> FacadeView {
    FacadeView { static_max: v.static_max, dynamic_max: max_level, sink: Some(received) }
}

/// A whole sequence of gated log calls, run left to right.
pub open spec fn run_log_calls(v: FacadeView, calls: Seq<RecordView>) -> FacadeView
    decreases calls.len(),
{
    if calls.len() == 0 {
        v
    } else {
        run_log_calls(log_step(v, calls[0]), calls.drop_first())
    }
}

} // verus!
