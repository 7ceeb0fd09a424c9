//! The backend capability the facade dispatches to, and an in-memory sink.

use vstd::prelude::*;
use crate::record::{Record, RecordView};

verus! {

/// The single capability a backend must offer: accept one record,
/// synchronously, on the calling thread. Implemented by backends outside
/// the facade; [`MemorySink`] is one such backend kept here.
pub trait Sink {
    /// The records this sink has accepted so far, in order of arrival.
    spec fn received(&self) -> Seq<RecordView>;

    /// Take delivery of one record. Delivery is exactly "at most once,
    /// right now": the record is appended to what the sink has received and
    /// control returns to the caller.
    fn accept(&mut self, record: Record)
        ensures
            final(self).received() == old(self).received().push(record@),
    ;
}

/// A backend that keeps every accepted record in memory, in order of
/// arrival.
#[derive(Debug)]
pub struct MemorySink {
    pub records: Vec<Record>,
}

impl MemorySink {
    /// A sink that has received nothing yet.
    pub fn new() -> (s: MemorySink)
        ensures
            s.received() == Seq::<RecordView>::empty(),
    {
        MemorySink { records: Vec::new() }
    }

    /// How many records have arrived.
    pub fn len(&self) -> (n: usize)
        ensures
            n == self.received().len(),
    {
        self.records.len()
    }

    /// The record that arrived at position `i`.
    pub fn get(&self, i: usize) -> (r: &Record)
        requires
            i < self.received().len(),
        ensures
            r@ == self.received()[i as int],
    {
        &self.records[i]
    }
}

impl Sink for MemorySink {
    open spec fn received(&self) -> Seq<RecordView> {
        self.records@.map_values(|r: Record| r@)
    }

    fn accept(&mut self, record: Record) {
        self.records.push(record);
        proof {
            assert(self.received() =~= old(self).received().push(self.records@.last()@));
        }
    }
}

} // verus!
