//! Dynamic values as the host hands them over.
//!
//! A value is kept as what the decoders read of it: what it holds, what the
//! host calls its type, and where it stood in the source.

use crate::chart::{Chart2d, ChartView};
use crate::double::Double;
use vstd::prelude::*;

verus! {

/// A stretch of source text, from `start` up to `end`.
#[derive(Clone, Copy, Debug, PartialEq, Eq, Structural)]
pub struct Span {
    pub start: usize,
    pub end: usize,
}

/// Where a range of the host ends.
#[derive(Clone, Copy, Debug, PartialEq, Eq, Structural)]
pub enum RangeEnd {
    /// At this number, which belongs to the range.
    Included(Double),
    /// At this number, which does not belong to the range.
    Excluded(Double),
    /// Nowhere.
    Unbounded,
}

/// What a custom handle carries.
#[derive(Debug, PartialEq, Eq)]
pub enum Payload {
    /// A chart of this library.
    Chart(Chart2d),
    /// A value of some other custom type, known by the name of its type only.
    Foreign,
}

/// What a dynamic value holds.
#[derive(Debug, PartialEq, Eq)]
pub enum Data {
    /// An integer or a float, as the double that it stands for: for an
    /// integer, the double that a cast gives.
    Number(Double),
    /// A range of integers or of floats, as a range of floats: where it starts
    /// and where it ends.
    Range { start: Double, end: RangeEnd },
    /// A list of values.
    List(Vec<Value>),
    /// A record: its fields in their order, each under its name.
    Record(Vec<(String, Value)>),
    /// A handle to a custom value.
    Custom(Payload),
    /// Anything else.
    Other,
}

/// A dynamic value.
#[derive(Debug, PartialEq, Eq)]
pub struct Value {
    /// What the value holds.
    pub data: Data,
    /// The name that the host prints for the value's type.
    pub type_label: String,
    /// Where the value stood in the source.
    pub span: Span,
}

/// What a custom handle carries, as plain values.
pub enum PayloadView {
    Chart(ChartView),
    Foreign,
}

/// What a dynamic value holds, as plain values.
pub enum DataView {
    Number(Double),
    Range { start: Double, end: RangeEnd },
    List(Seq<ValueView>),
    Record(Seq<(Seq<char>, ValueView)>),
    Custom(PayloadView),
    Other,
}

/// A dynamic value as plain values.
pub struct ValueView {
    pub data: DataView,
    pub type_label: Seq<char>,
    pub span: Span,
}

impl View for Payload {
    type V = PayloadView;

    open spec fn view(&self) -> PayloadView {
        match *self {
            Payload::Chart(chart) => PayloadView::Chart(chart@),
            Payload::Foreign => PayloadView::Foreign,
        }
    }
}

impl Value {
    /// The value as plain values, all the way down.
    pub open spec fn plain(self) -> ValueView
        decreases self,
    {
        ValueView {
            data: match self.data {
                Data::Number(number) => DataView::Number(number),
                Data::Range { start, end } => DataView::Range { start, end },
                Data::List(items) => DataView::List(
                    Seq::new(
                        items.len() as nat,
                        |i: int|
                            if 0 <= i < items.len() {
                                items[i].plain()
                            } else {
                                arbitrary()
                            },
                    ),
                ),
                Data::Record(fields) => DataView::Record(
                    Seq::new(
                        fields.len() as nat,
                        |i: int|
                            if 0 <= i < fields.len() {
                                (fields[i].0@, fields[i].1.plain())
                            } else {
                                arbitrary()
                            },
                    ),
                ),
                Data::Custom(payload) => DataView::Custom(payload@),
                Data::Other => DataView::Other,
            },
            type_label: self.type_label@,
            span: self.span,
        }
    }
}

impl View for Value {
    type V = ValueView;

    open spec fn view(&self) -> ValueView {
        self.plain()
    }
}

} // verus!
