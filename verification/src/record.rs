//! The structured record handed to a sink: one logged event.

use vstd::prelude::*;
use crate::level::Level;

verus! {

/// How a structured field's value was captured at the call site. The tag
/// travels with the field so a sink can render or index the value without
/// re-deriving capture semantics.
#[derive(Clone, Copy, PartialEq, Eq, Structural, Debug)]
pub enum CaptureKind {
    /// Captured as plain display text.
    Display,
    /// Captured as detailed debug text.
    Debug,
    /// A native structured value handed through unformatted.
    Value,
}

/// One structured key/value pair attached to a record.
#[derive(Debug)]
pub struct Field {
    pub key: String,
    pub kind: CaptureKind,
    pub value: String,
}

/// Mathematical image of a [`Field`].
pub struct FieldView {
    pub key: Seq<char>,
    pub kind: CaptureKind,
    pub value: Seq<char>,
}

impl View for Field {
    type V = FieldView;

    open spec fn view(&self) -> FieldView {
        FieldView { key: self.key@, kind: self.kind, value: self.value@ }
    }
}

impl Field {
    /// Build one field from its parts.
    pub fn new(key: String, kind: CaptureKind, value: String) -> (f: Field)
        ensures
            f@ == (FieldView { key: key@, kind, value: value@ }),
    {
        Field { key, kind, value }
    }
}

/// The image of a sequence of fields, in declaration order.
pub open spec fn fields_view(fields: Seq<Field>) -> Seq<FieldView> {
    fields.map_values(|f: Field| f@)
}

/// One logged event. Built fresh for each call that passes the filter gate
/// and consumed by exactly one dispatch; the facade retains nothing.
#[derive(Debug)]
pub struct Record {
    /// Severity of the call that produced this record.
    pub level: Level,
    /// Free-form routing label; defaults to the originating module when the
    /// caller supplies none.
    pub target: String,
    /// The true originating module of the call site, never the
    /// caller-supplied target.
    pub module: String,
    /// The rendered text payload.
    pub message: String,
    /// Structured key/value pairs in declaration order; empty when the
    /// caller attached none.
    pub fields: Vec<Field>,
}

/// Mathematical image of a [`Record`].
pub struct RecordView {
    pub level: Level,
    pub target: Seq<char>,
    pub module: Seq<char>,
    pub message: Seq<char>,
    pub fields: Seq<FieldView>,
}

impl View for Record {
    type V = RecordView;

    open spec fn view(&self) -> RecordView {
        RecordView {
            level: self.level,
            target: self.target@,
            module: self.module@,
            message: self.message@,
            fields: fields_view(self.fields@),
        }
    }
}

impl Record {
    /// Build one record from already-rendered parts. Pure: every attribute
    /// is taken as given, in order, with nothing added or dropped.
    pub fn new(level: Level, target: String, module: String, message: String, fields: Vec<Field>) -> (r: Record)
        ensures
            r@ == (RecordView {
                level,
                target: target@,
                module: module@,
                message: message@,
                fields: fields_view(fields@),
            }),
    {
        Record { level, target, module, message, fields }
    }
}

} // verus!
