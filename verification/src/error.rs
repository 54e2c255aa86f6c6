use vstd::prelude::*;

verus! {

/// The ways a digit string can fail to parse as a 64-bit unsigned integer.
#[derive(Debug, Clone, Copy, PartialEq, Eq, Structural)]
pub enum IntErrorKind {
    /// The string was empty.
    Empty,
    /// The string holds a character that is not an ASCII decimal digit.
    InvalidDigit,
    /// The spelled value does not fit in 64 bits.
    PosOverflow,
}

/// Things that can go wrong while parsing a [`Dflake`](crate::Dflake).
#[derive(Debug, Clone, Copy, PartialEq, Eq, Structural)]
pub enum ParseError {
    /// The provided string or number was too small.
    TooSmall,
    /// The provided string or number was too large.
    TooLarge,
    /// The string contains whitespace.
    ContainsWhitespace,
    /// The string contains a non-numeric character.
    InvalidChar,
    /// Failed to parse the string into a number.
    ParseIntError(IntErrorKind),
}

/// The one-line description of each error kind.
pub open spec fn message_of(e: ParseError) -> Seq<char> {
    match e {
        ParseError::TooSmall => "The input is too small"@,
        ParseError::TooLarge => "The input is too large."@,
        ParseError::ContainsWhitespace => "The input contains whitespace."@,
        ParseError::InvalidChar => "The input contains an invalid character"@,
        ParseError::ParseIntError(IntErrorKind::Empty) => "Failed to parse as an integer: cannot parse integer from empty string"@,
        ParseError::ParseIntError(IntErrorKind::InvalidDigit) => "Failed to parse as an integer: invalid digit found in string"@,
        ParseError::ParseIntError(IntErrorKind::PosOverflow) => "Failed to parse as an integer: number too large to fit in target type"@,
    }
}

impl ParseError {
    /// A distinct, human-readable one-line message for this error.
    pub fn message(&self) -> (r: &'static str)
        ensures
            r@ == message_of(*self),
    {
        match self {
            ParseError::TooSmall => "The input is too small",
            ParseError::TooLarge => "The input is too large.",
            ParseError::ContainsWhitespace => "The input contains whitespace.",
            ParseError::InvalidChar => "The input contains an invalid character",
            ParseError::ParseIntError(IntErrorKind::Empty) => "Failed to parse as an integer: cannot parse integer from empty string",
            ParseError::ParseIntError(IntErrorKind::InvalidDigit) => "Failed to parse as an integer: invalid digit found in string",
            ParseError::ParseIntError(IntErrorKind::PosOverflow) => "Failed to parse as an integer: number too large to fit in target type",
        }
    }
}

impl From<IntErrorKind> for ParseError {
    fn from(e: IntErrorKind) -> (r: Self) {
        ParseError::ParseIntError(e)
    }
}

impl vstd::std_specs::convert::FromSpecImpl<IntErrorKind> for ParseError {
    open spec fn obeys_from_spec() -> bool {
        true
    }

    open spec fn from_spec(e: IntErrorKind) -> Self {
        ParseError::ParseIntError(e)
    }
}

} // verus!
