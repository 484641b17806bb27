//! The failures a decode call can report.

use vstd::prelude::*;

verus! {

/// Why a decode call failed.
///
/// Decoding is fail-fast: the first error anywhere in field decoding
/// aborts the whole call, and no partial result is returned.
#[derive(Debug, Clone, PartialEq, Eq)]
pub enum DecodeError {
    /// A string failed to convert to the requested primitive type, or
    /// named no declared enum variant.  Carries the offending text.
    Parse(String),
    /// A value list was consulted in a context requiring at least one
    /// element, but it had none.
    Empty,
    /// The requested shape cannot be represented by flat string data:
    /// a nested structured shape, or an enum variant carrying payload.
    Unsupported,
    /// A declared field's key was absent from the source map.
    /// Carries the field name.
    Missing(String),
    /// A tuple shape asked for more elements than the value list holds.
    Arity,
}

/// The mathematical model of a [`DecodeError`].
///
/// The offending text of a parse error is presentational and is not part
/// of the model; the field name of a missing-field error is.
pub enum ErrorView {
    Parse,
    Empty,
    Unsupported,
    Missing(Seq<char>),
    Arity,
}

impl View for DecodeError {
    type V = ErrorView;

    open spec fn view(&self) -> ErrorView {
        match self {
            DecodeError::Parse(_) => ErrorView::Parse,
            DecodeError::Empty => ErrorView::Empty,
            DecodeError::Unsupported => ErrorView::Unsupported,
            DecodeError::Missing(name) => ErrorView::Missing(name@),
            DecodeError::Arity => ErrorView::Arity,
        }
    }
}

} // verus!
