//! Severity levels and the two-ceiling filter gate.
//!
//! A log call carries a [`Level`]; whether it is allowed to produce a record
//! is decided by comparing that level against two ceilings of type
//! [`LevelFilter`]: one fixed when the facade is constructed and one mutable
//! at run time. A level passes a ceiling when it is at least as severe.

use vstd::prelude::*;

verus! {

/// Verbosity level of a single log call, listed from most severe to least
/// severe: `Error`, `Warn`, `Info`, `Debug`, `Trace`.
#[derive(Clone, Copy, PartialEq, Eq, Structural, Debug)]
pub enum Level {
    Error,
    Warn,
    Info,
    Debug,
    Trace,
}

/// A ceiling against which levels are compared. `Off` admits no level at
/// all; each other variant admits its level and every more severe one.
#[derive(Clone, Copy, PartialEq, Eq, Structural, Debug)]
pub enum LevelFilter {
    Off,
    Error,
    Warn,
    Info,
    Debug,
    Trace,
}

impl Level {
    /// Numeric severity rank; a smaller rank is more severe.
    pub open spec fn severity(self) -> int {
        match self {
            Level::Error => 1,
            Level::Warn => 2,
            Level::Info => 3,
            Level::Debug => 4,
            Level::Trace => 5,
        }
    }

    /// Executable severity rank, equal to [`Level::severity`].
    pub fn rank(self) -> (r: u8)
        ensures
            r == self.severity(),
    {
        match self {
            Level::Error => 1,
            Level::Warn => 2,
            Level::Info => 3,
            Level::Debug => 4,
            Level::Trace => 5,
        }
    }

    /// Whether this level clears the given ceiling: true exactly when the
    /// level is at least as severe as the ceiling.
    pub open spec fn spec_passes(self, ceiling: LevelFilter) -> bool {
        self.severity() <= ceiling.severity()
    }

    /// Executable form of [`Level::spec_passes`].
    pub fn passes(self, ceiling: LevelFilter) -> (r: bool)
        ensures
            r == self.spec_passes(ceiling),
    {
        self.rank() <= ceiling.rank()
    }
}

impl LevelFilter {
    /// Numeric rank of the ceiling; `Off` sits below every level, so no
    /// level passes it.
    pub open spec fn severity(self) -> int {
        match self {
            LevelFilter::Off => 0,
            LevelFilter::Error => 1,
            LevelFilter::Warn => 2,
            LevelFilter::Info => 3,
            LevelFilter::Debug => 4,
            LevelFilter::Trace => 5,
        }
    }

    /// Executable severity rank, equal to [`LevelFilter::severity`].
    pub fn rank(self) -> (r: u8)
        ensures
            r == self.severity(),
    {
        match self {
            LevelFilter::Off => 0,
            LevelFilter::Error => 1,
            LevelFilter::Warn => 2,
            LevelFilter::Info => 3,
            LevelFilter::Debug => 4,
            LevelFilter::Trace => 5,
        }
    }
}

/// The filter gate: a candidate level may produce a record only when it
/// clears the build-time ceiling and the run-time ceiling.
pub open spec fn gate_passes(level: Level, static_ceiling: LevelFilter, dynamic_ceiling: LevelFilter) -> bool {
    level.spec_passes(static_ceiling) && level.spec_passes(dynamic_ceiling)
}

/// Executable filter gate, cheapest comparison first; equal to
/// [`gate_passes`].
pub fn check_gate(level: Level, static_ceiling: LevelFilter, dynamic_ceiling: LevelFilter) -> (r: bool)
    ensures
        r == gate_passes(level, static_ceiling, dynamic_ceiling),
{
    level.passes(static_ceiling) && level.passes(dynamic_ceiling)
}

} // verus!
