//! A logging facade: leveled, targeted log records, filtered by a
//! build-time and a run-time severity ceiling and handed to a pluggable
//! sink.
//!
//! Every call runs through the same protocol: check the candidate level
//! against the two ceilings, cheapest comparison first; only on the live
//! path render the message and build a [`record::Record`]; hand that
//! record, synchronously and exactly once, to whichever [`sink::Sink`] is
//! currently registered — or do nothing at all when none is. The protocol
//! is stated over the model in [`model`] and its guarantees are proved in
//! [`laws`].

pub mod facade;
pub mod laws;
pub mod level;
pub mod model;
pub mod record;
pub mod sink;
