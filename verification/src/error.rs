//! The ways a stream record can fail to decode.

use vstd::prelude::*;

verus! {

/// A decoding failure for one stream record.
///
/// The coercion failures (`NumericFormat`, `BooleanFormat`, `StringFormat`,
/// `DateFormat`, `DurationFormat`) come from the required form of a
/// primitive coercer — `StringFormat` names the case of a field that must
/// carry text holding a value of some other shape;
/// `UnrecognizedStreamKind` is reported when a record's discriminant does not
/// name one of the four known stream kinds.
#[derive(Debug, Clone, Copy, PartialEq, Eq, Structural)]
pub enum DecodeError {
    NumericFormat,
    BooleanFormat,
    StringFormat,
    DateFormat,
    DurationFormat,
    UnrecognizedStreamKind,
}

impl DecodeError {
    /// A short human-readable description, for callers that report failures.
    pub fn describe(&self) -> (r: &'static str)
        ensures
            r@ == match self {
                DecodeError::NumericFormat => "invalid numeric value"@,
                DecodeError::BooleanFormat => "invalid boolean value"@,
                DecodeError::StringFormat => "invalid string value"@,
                DecodeError::DateFormat => "invalid date value"@,
                DecodeError::DurationFormat => "invalid duration value"@,
                DecodeError::UnrecognizedStreamKind => "unrecognized stream kind"@,
            },
    {
        match self {
            DecodeError::NumericFormat => "invalid numeric value",
            DecodeError::BooleanFormat => "invalid boolean value",
            DecodeError::StringFormat => "invalid string value",
            DecodeError::DateFormat => "invalid date value",
            DecodeError::DurationFormat => "invalid duration value",
            DecodeError::UnrecognizedStreamKind => "unrecognized stream kind",
        }
    }
}

} // verus!
