//! The dispatch layer: process-wide registration state, the gated generic
//! log operation, and the five leveled shorthand entry points.
//!
//! The state lives in an explicit [`Facade`] value rather than a process
//! global, so that callers (and proofs) can see exactly what each call
//! reads and writes; an application typically holds one such value for its
//! lifetime.

use vstd::prelude::*;
use crate::level::{Level, LevelFilter, check_gate};
use crate::model::{FacadeView, dispatch_step, gate, register_step};
use crate::record::{Field, Record, RecordView, fields_view};
use crate::sink::Sink;

verus! {

/// Process-wide registration state: the build-time ceiling, the run-time
/// ceiling, and the currently active sink, if any. Freshly constructed
/// state holds no sink and the most restrictive run-time ceiling, so every
/// log call is a guaranteed no-op until a sink is registered.
pub struct Facade<S> {
    /// Ceiling fixed when the facade is built; never mutated afterwards.
    pub static_max: LevelFilter,
    /// Ceiling an operator may move at run time; never more permissive in
    /// effect than `static_max`, which is checked first.
    pub dynamic_max: LevelFilter,
    /// The active sink; `None` until the first registration.
    pub sink: Option<S>,
}

impl<S: Sink> View for Facade<S> {
    type V = FacadeView;

    open spec fn view(&self) -> FacadeView {
        FacadeView {
            static_max: self.static_max,
            dynamic_max: self.dynamic_max,
            sink: match self.sink {
                Some(s) => Some(s.received()),
                None => None,
            },
        }
    }
}

impl<S: Sink> Facade<S> {
    /// Fresh state: the given build-time ceiling, run-time ceiling `Off`,
    /// no sink.
    pub fn new(static_max: LevelFilter) -> (f: Facade<S>)
        ensures
            f@ == (FacadeView { static_max, dynamic_max: LevelFilter::Off, sink: None }),
    {
        Facade { static_max, dynamic_max: LevelFilter::Off, sink: None }
    }

    /// Register `sink` as the active one and set the run-time ceiling;
    /// last writer wins, and the previously active sink is handed back
    /// untouched. Always legal, never an error, even mid-process.
    pub fn set_active_sink(&mut self, sink: S, max_level: LevelFilter) -> (prev: Option<S>)
        ensures
            final(self)@ == register_step(old(self)@, sink.received(), max_level),
            prev == old(self).sink,
    {
        self.dynamic_max = max_level;
        let prev = self.sink.take();
        self.sink = Some(sink);
        prev
    }

    /// The current run-time ceiling.
    pub fn max_level(&self) -> (r: LevelFilter)
        ensures
            r == self@.dynamic_max,
    {
        self.dynamic_max
    }

    /// The build-time ceiling.
    pub fn static_max_level(&self) -> (r: LevelFilter)
        ensures
            r == self@.static_max,
    {
        self.static_max
    }

    /// Whether a call at `level` would currently produce a record: true
    /// exactly when `level` clears both ceilings. Callers may use this to
    /// skip expensive argument computation; the gated entry points check
    /// it again themselves.
    pub fn enabled(&self, level: Level) -> (r: bool)
        ensures
            r == gate(self@, level),
    {
        check_gate(level, self.static_max, self.dynamic_max)
    }
}

/// The routing label a call ends up with: the explicit target when one was
/// supplied, else the originating module identifier.
pub open spec fn target_or_module(target: Option<&str>, module: &str) -> Seq<char> {
    match target {
        Some(t) => t@,
        None => module@,
    }
}

/// Dispatch one already-built payload to the active sink, unconditionally:
/// the record is constructed from the given parts and consumed by exactly
/// one delivery; with no sink registered, nothing at all happens.
pub fn log_impl<S: Sink>(
    facade: &mut Facade<S>,
    level: Level,
    target: &str,
    module: &str,
    message: String,
    fields: Vec<Field>,
)
    ensures
        final(facade)@ == dispatch_step(old(facade)@, (RecordView {
            level,
            target: target@,
            module: module@,
            message: message@,
            fields: fields_view(fields@),
        })),
{
    let record = Record::new(level, target.to_owned(), module.to_owned(), message, fields);
    match &mut facade.sink {
        Some(s) => {
            s.accept(record);
        },
        None => {},
    }
}

/// The generic ungated log operation; equivalent to [`log_impl`], to which
/// it forwards.
pub fn log<S: Sink>(
    facade: &mut Facade<S>,
    level: Level,
    target: &str,
    module: &str,
    message: String,
    fields: Vec<Field>,
)
    ensures
        final(facade)@ == dispatch_step(old(facade)@, (RecordView {
            level,
            target: target@,
            module: module@,
            message: message@,
            fields: fields_view(fields@),
        })),
{
    log_impl(facade, level, target, module, message, fields)
}

/// What a gated log call leaves behind. Either the level fails a ceiling
/// and the state `post` equals the state `pre` — in particular `render`
/// was never run, so no formatting work was done — or the level clears
/// both ceilings and exactly one record, made of some output of `render`,
/// was dispatched.
pub open spec fn gated_call_post<F: FnOnce() -> (String, Vec<Field>)>(
    render: F,
    pre: FacadeView,
    post: FacadeView,
    level: Level,
    target: Seq<char>,
    module: Seq<char>,
) -> bool {
    &&& !gate(pre, level) ==> post == pre
    &&& gate(pre, level) ==> exists|payload: (String, Vec<Field>)|
        #[trigger] call_ensures(render, (), payload)
            && post == dispatch_step(pre, (RecordView {
            level,
            target,
            module,
            message: payload.0@,
            fields: fields_view(payload.1@),
        }))
}

/// The gated generic log entry point: check the filter gate, cheapest
/// comparison first, and only when it passes render the payload and
/// dispatch one record built from it. `render` stands for the excluded
/// formatting collaborator: it is run only on the live path.
pub fn log_with<S: Sink, F: FnOnce() -> (String, Vec<Field>)>(
    facade: &mut Facade<S>,
    level: Level,
    target: Option<&str>,
    module: &str,
    render: F,
)
    requires
        call_requires(render, ()),
    ensures
        !level.spec_passes(old(facade)@.static_max) ==> final(facade)@ == old(facade)@,
        level.spec_passes(old(facade)@.static_max) && !level.spec_passes(old(facade)@.dynamic_max)
            ==> final(facade)@ == old(facade)@,
        gated_call_post(render, old(facade)@, final(facade)@, level, target_or_module(target, module), module@),
{
    if check_gate(level, facade.static_max, facade.dynamic_max) {
        let pair = render();
        let ghost payload: (String, Vec<Field>) = pair;
        let (message, fields) = pair;
        let routing = match target {
            Some(t) => t,
            None => module,
        };
        log_impl(facade, level, routing, module, message, fields);
        proof {
            assert(call_ensures(render, (), payload));
            assert(facade@ == dispatch_step(old(facade)@, (RecordView {
                level,
                target: target_or_module(target, module),
                module: module@,
                message: payload.0@,
                fields: fields_view(payload.1@),
            })));
        }
    }
}

/// Shorthand: a gated log call at `Level::Error`.
pub fn error<S: Sink, F: FnOnce() -> (String, Vec<Field>)>(
    facade: &mut Facade<S>,
    target: Option<&str>,
    module: &str,
    render: F,
)
    requires
        call_requires(render, ()),
    ensures
        gated_call_post(render, old(facade)@, final(facade)@, Level::Error, target_or_module(target, module), module@),
{
    log_with(facade, Level::Error, target, module, render)
}

/// Shorthand: a gated log call at `Level::Warn`.
pub fn warn<S: Sink, F: FnOnce() -> (String, Vec<Field>)>(
    facade: &mut Facade<S>,
    target: Option<&str>,
    module: &str,
    render: F,
)
    requires
        call_requires(render, ()),
    ensures
        gated_call_post(render, old(facade)@, final(facade)@, Level::Warn, target_or_module(target, module), module@),
{
    log_with(facade, Level::Warn, target, module, render)
}

/// Shorthand: a gated log call at `Level::Info`.
pub fn info<S: Sink, F: FnOnce() -> (String, Vec<Field>)>(
    facade: &mut Facade<S>,
    target: Option<&str>,
    module: &str,
    render: F,
)
    requires
        call_requires(render, ()),
    ensures
        gated_call_post(render, old(facade)@, final(facade)@, Level::Info, target_or_module(target, module), module@),
{
    log_with(facade, Level::Info, target, module, render)
}

/// Shorthand: a gated log call at `Level::Debug`.
pub fn debug<S: Sink, F: FnOnce() -> (String, Vec<Field>)>(
    facade: &mut Facade<S>,
    target: Option<&str>,
    module: &str,
    render: F,
)
    requires
        call_requires(render, ()),
    ensures
        gated_call_post(render, old(facade)@, final(facade)@, Level::Debug, target_or_module(target, module), module@),
{
    log_with(facade, Level::Debug, target, module, render)
}

/// Shorthand: a gated log call at `Level::Trace`.
pub fn trace<S: Sink, F: FnOnce() -> (String, Vec<Field>)>(
    facade: &mut Facade<S>,
    target: Option<&str>,
    module: &str,
    render: F,
)
    requires
        call_requires(render, ()),
    ensures
        gated_call_post(render, old(facade)@, final(facade)@, Level::Trace, target_or_module(target, module), module@),
{
    log_with(facade, Level::Trace, target, module, render)
}

} // verus!
