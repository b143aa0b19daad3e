//! The formatting pipeline's error taxonomy.

use vstd::prelude::*;

verus! {

/// Why formatting one event failed.  A failed render is terminal for that
/// event and never retried.
#[derive(Clone, Copy, Debug, PartialEq, Eq, Structural)]
pub enum FormatError {
    /// A lifecycle notification did not name a span that the registry
    /// knows, so there is no span to describe.
    MissingSpan,
    /// The record's timestamp lies outside the representable range.
    TimestampOutOfRange,
}

impl FormatError {
    /// A short description of the error.
    pub fn message(&self) -> (r: &'static str)
        ensures
            self is MissingSpan ==> r@ == "lifecycle event does not name a known span"@,
            self is TimestampOutOfRange ==> r@ == "timestamp out of range"@,
    {
        match self {
            FormatError::MissingSpan => "lifecycle event does not name a known span",
            FormatError::TimestampOutOfRange => "timestamp out of range",
        }
    }
}

} // verus!
