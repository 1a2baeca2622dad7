//! Errors raised while decoding a frame.
use vstd::prelude::*;

verus! {

/// What went wrong while decoding a frame.
#[derive(Copy, Clone, Debug, PartialEq, Eq, Structural)]
pub enum ParseErrorKind {
    /// The frame ended before a field that it announces.
    UnexpectedEnd,
    /// A recognized object id came with a length that its layout does not allow.
    InvalidLength {
        /// The object id.
        id: u16,
        /// The length that the object declared.
        length: u8,
    },
    /// The frame's device id selects no known packet layout.
    UnknownLayout {
        /// The device id read from the frame.
        device_id: u16,
    },
}

/// Raised when a frame cannot be decoded. Decoding is all or nothing: no partial result comes
/// with it.
#[derive(Copy, Clone, Debug, PartialEq, Eq, Structural)]
pub struct ParseError {
    /// The cause.
    pub kind: ParseErrorKind,
}

impl ParseError {
    /// The frame was shorter than its fields.
    pub open spec fn spec_unexpected_end() -> ParseError {
        ParseError { kind: ParseErrorKind::UnexpectedEnd }
    }

    /// A recognized object id with a length its layout does not allow.
    pub open spec fn spec_invalid_length(id: u16, length: u8) -> ParseError {
        ParseError { kind: ParseErrorKind::InvalidLength { id, length } }
    }

    /// The frame was shorter than its fields.
    pub fn unexpected_end() -> (r: ParseError)
        ensures
            r == ParseError::spec_unexpected_end(),
    {
        ParseError { kind: ParseErrorKind::UnexpectedEnd }
    }

    /// A recognized object id with a length its layout does not allow.
    pub fn invalid_length(id: u16, length: u8) -> (r: ParseError)
        ensures
            r == ParseError::spec_invalid_length(id, length),
    {
        ParseError { kind: ParseErrorKind::InvalidLength { id, length } }
    }
}

} // verus!
