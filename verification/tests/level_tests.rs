use log_facade::level::{check_gate, Level, LevelFilter};

#[test]
fn ranks_are_ordered_most_severe_first() {
    assert_eq!(Level::Error.rank(), 1);
    assert_eq!(Level::Warn.rank(), 2);
    assert_eq!(Level::Info.rank(), 3);
    assert_eq!(Level::Debug.rank(), 4);
    assert_eq!(Level::Trace.rank(), 5);
    assert_eq!(LevelFilter::Off.rank(), 0);
    assert_eq!(LevelFilter::Trace.rank(), 5);
}

#[test]
fn no_level_passes_off() {
    let levels = [Level::Error, Level::Warn, Level::Info, Level::Debug, Level::Trace];
    for l in levels {
        assert!(!l.passes(LevelFilter::Off));
    }
}

#[test]
fn every_level_passes_trace() {
    let levels = [Level::Error, Level::Warn, Level::Info, Level::Debug, Level::Trace];
    for l in levels {
        assert!(l.passes(LevelFilter::Trace));
    }
}

#[test]
fn level_passes_exactly_the_ceilings_at_or_below_it() {
    assert!(Level::Warn.passes(LevelFilter::Warn));
    assert!(Level::Warn.passes(LevelFilter::Info));
    assert!(!Level::Warn.passes(LevelFilter::Error));
    assert!(Level::Trace.passes(LevelFilter::Trace));
    assert!(!Level::Trace.passes(LevelFilter::Debug));
    assert!(Level::Error.passes(LevelFilter::Error));
    assert!(!Level::Info.passes(LevelFilter::Warn));
}

#[test]
fn gate_requires_both_ceilings() {
    assert!(check_gate(Level::Warn, LevelFilter::Info, LevelFilter::Warn));
    assert!(!check_gate(Level::Debug, LevelFilter::Info, LevelFilter::Trace));
    assert!(!check_gate(Level::Info, LevelFilter::Trace, LevelFilter::Warn));
    assert!(!check_gate(Level::Error, LevelFilter::Off, LevelFilter::Trace));
    assert!(check_gate(Level::Error, LevelFilter::Error, LevelFilter::Error));
}
