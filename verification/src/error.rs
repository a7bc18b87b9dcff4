//! The errors of decoding.

use crate::value::Span;
use vstd::prelude::*;

verus! {

/// Why a value could not be decoded.
///
/// `to_type` is the printed name of the type that was wanted, `from_type` that
/// of the value that was found, and a span is the place of that value.
#[derive(Debug, PartialEq, Eq)]
pub enum DecodeError {
    /// The value is not of the wanted type. `help` says what to try instead,
    /// where there is something to say.
    CantConvert { to_type: String, from_type: String, span: Span, help: Option<String> },
    /// A list holds `found` items where `wanted` were asked for.
    WrongLength { to_type: String, from_type: String, span: Span, wanted: usize, found: usize },
    /// A record has no field of the name `col_name`; `src_span` is the place of
    /// the record.
    CantFindColumn { col_name: String, src_span: Span },
}

/// A decoding error as plain values.
pub enum DecodeErrorView {
    CantConvert { to_type: Seq<char>, from_type: Seq<char>, span: Span, help: Option<Seq<char>> },
    WrongLength { to_type: Seq<char>, from_type: Seq<char>, span: Span, wanted: usize, found: usize },
    CantFindColumn { col_name: Seq<char>, src_span: Span },
}

impl View for DecodeError {
    type V = DecodeErrorView;

    open spec fn view(&self) -> DecodeErrorView {
        match *self {
            DecodeError::CantConvert { to_type, from_type, span, help } => DecodeErrorView::CantConvert {
                to_type: to_type@,
                from_type: from_type@,
                span,
                help: match help {
                    Some(text) => Some(text@),
                    None => None,
                },
            },
            DecodeError::WrongLength { to_type, from_type, span, wanted, found } => DecodeErrorView::WrongLength {
                to_type: to_type@,
                from_type: from_type@,
                span,
                wanted,
                found,
            },
            DecodeError::CantFindColumn { col_name, src_span } => DecodeErrorView::CantFindColumn {
                col_name: col_name@,
                src_span,
            },
        }
    }
}

/// A result of decoding with its error as plain values.
pub open spec fn plainly<T>(r: Result<T, DecodeError>) -> Result<T, DecodeErrorView> {
    match r {
        Ok(value) => Ok(value),
        Err(error) => Err(error@),
    }
}

} // verus!
