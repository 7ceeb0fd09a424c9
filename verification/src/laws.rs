//! The facade's guarantees, stated and proved over the model of
//! [`crate::model`]: what the two ceilings block, what a passing call
//! delivers, and what registration swaps do.

use vstd::prelude::*;
use crate::level::LevelFilter;
use crate::model::{FacadeView, dispatch_step, gate, log_step, register_step, run_log_calls};
use crate::record::RecordView;

verus! {

/// A level that fails the build-time ceiling leaves the state exactly as
/// it was, whatever the run-time ceiling and whatever the sink: no record
/// is built, nothing is dispatched.
pub proof fn lemma_static_ceiling_blocks(v: FacadeView, r: RecordView)
    requires
        !r.level.spec_passes(v.static_max),
    ensures
        log_step(v, r) == v,
{
}

/// A level that clears the build-time ceiling but fails the run-time one
/// gives the same guarantee: the state is exactly as it was.
pub proof fn lemma_dynamic_ceiling_blocks(v: FacadeView, r: RecordView)
    requires
        r.level.spec_passes(v.static_max),
        !r.level.spec_passes(v.dynamic_max),
    ensures
        log_step(v, r) == v,
{
}

/// A level that clears both ceilings, with a sink registered, hands
/// exactly one record to that sink: the received sequence grows by one,
/// and the new last record is the dispatched one, its level included.
pub proof fn lemma_gate_passes_delivers_once(v: FacadeView, r: RecordView)
    requires
        gate(v, r.level),
        v.sink is Some,
    ensures
        log_step(v, r).sink is Some,
        log_step(v, r).sink->0 == v.sink->0.push(r),
        log_step(v, r).sink->0.len() == v.sink->0.len() + 1,
        log_step(v, r).sink->0.last() == r,
        log_step(v, r).static_max == v.static_max,
        log_step(v, r).dynamic_max == v.dynamic_max,
{
}

/// With no sink ever registered, any sequence of log calls, at any levels,
/// leaves the state untouched: dispatch without a sink is a guaranteed
/// no-op, over and over.
pub proof fn lemma_no_sink_no_effect(v: FacadeView, calls: Seq<RecordView>)
    requires
        v.sink is None,
    ensures
        run_log_calls(v, calls) == v,
    decreases calls.len(),
{
    if calls.len() > 0 {
        assert(log_step(v, calls[0]) == v);
        lemma_no_sink_no_effect(v, calls.drop_first());
    }
}

/// After registering sink `a` and then sink `b`, a log call lands in `b`'s
/// received records when its level passes, and in nobody's when it fails;
/// `a`'s records are not part of the state at all, so `a` never observes
/// the call.
pub proof fn lemma_registration_swap(
    v: FacadeView,
    a: Seq<RecordView>,
    ma: LevelFilter,
    b: Seq<RecordView>,
    mb: LevelFilter,
    r: RecordView,
)
    ensures
        ({
            let swapped = register_step(register_step(v, a, ma), b, mb);
            &&& gate(swapped, r.level) ==> log_step(swapped, r).sink == Some(b.push(r))
            &&& !gate(swapped, r.level) ==> log_step(swapped, r).sink == Some(b)
        }),
{
}

/// Dispatch never moves either ceiling: a log call can only append to what
/// the active sink has received.
pub proof fn lemma_log_preserves_ceilings(v: FacadeView, r: RecordView)
    ensures
        log_step(v, r).static_max == v.static_max,
        log_step(v, r).dynamic_max == v.dynamic_max,
{
}

/// Registration never moves the build-time ceiling: it is fixed for the
/// life of the state.
pub proof fn lemma_register_preserves_static_ceiling(v: FacadeView, received: Seq<RecordView>, max_level: LevelFilter)
    ensures
        register_step(v, received, max_level).static_max == v.static_max,
{
}

/// Dispatch without a gate in front still reaches at most one sink, once:
/// an unconditional dispatch appends exactly one record when a sink is
/// registered and nothing otherwise.
pub proof fn lemma_dispatch_once(v: FacadeView, r: RecordView)
    ensures
        v.sink is Some ==> dispatch_step(v, r).sink == Some(v.sink->0.push(r)),
        v.sink is None ==> dispatch_step(v, r) == v,
{
}

} // verus!
