//! Chart descriptions for two-dimensional plots, and their passage to and from
//! the dynamic values of a host shell.
//!
//! A chart holds its series and its layout. Where it names no range for an
//! axis, the range is merged from the extents of its series. Ranges and charts
//! are decoded from dynamic values; a chart is encoded as a tagged handle.
//!
//! Numbers are doubles throughout, held by their bits (`Double`): the library
//! compares them and hands them on, and computes nothing with them. A dynamic
//! value (`Value`) holds what a decoder reads of a value of the host, so the
//! caller reads the host's value into one: a number as the double that the
//! host's float decoder makes of it, a range by its first value and its end,
//! lists and records item by item, and each value with the printed name of its
//! type and with its span.

pub mod chart;
pub mod decode;
pub mod double;
pub mod error;
pub mod host;
pub mod range;
pub mod series;
pub mod value;

pub use chart::Chart2d;
pub use double::Double;
pub use error::DecodeError;
pub use range::Range;
pub use series::{Color, Series2d};
pub use value::{Data, Payload, RangeEnd, Span, Value};
