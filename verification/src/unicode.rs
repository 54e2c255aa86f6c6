use vstd::prelude::*;

verus! {

/// Whether a character beyond ASCII has the Unicode White_Space property.
pub uninterp spec fn unicode_space_ext(c: char) -> bool;

/// Whether a character beyond ASCII lies in one of the Unicode numeric
/// categories (Nd, Nl or No).
pub uninterp spec fn unicode_numeric_ext(c: char) -> bool;

/// True when the character is an ASCII decimal digit, '0' to '9'.
pub open spec fn is_digit_char(c: char) -> bool {
    0x30 <= c as u32 && c as u32 <= 0x39
}

/// True when the character has the Unicode White_Space property. Within
/// ASCII these are exactly tab, line feed, vertical tab, form feed,
/// carriage return and space.
pub open spec fn is_space_char(c: char) -> bool {
    if (c as u32) < 0x80 {
        c as u32 == 0x20 || (0x09 <= c as u32 && c as u32 <= 0x0D)
    } else {
        unicode_space_ext(c)
    }
}

/// True when the character lies in a Unicode numeric category. Within ASCII
/// these are exactly the ten decimal digits.
pub open spec fn is_numeric_char(c: char) -> bool {
    if (c as u32) < 0x80 {
        is_digit_char(c)
    } else {
        unicode_numeric_ext(c)
    }
}

/// Relies on char::is_whitespace: true exactly for the characters with the
/// Unicode White_Space property, which within ASCII are tab, line feed,
/// vertical tab, form feed, carriage return and space.
#[verifier::external_body]
pub(crate) fn char_is_whitespace(c: char) -> (r: bool)
    ensures
        r == is_space_char(c),
        c as u32 >= 0x80 ==> r == unicode_space_ext(c),
{
    c.is_whitespace()
}

/// Relies on char::is_numeric: true exactly for the characters in the
/// Unicode numeric categories Nd, Nl and No, which within ASCII are the ten
/// decimal digits.
#[verifier::external_body]
pub(crate) fn char_is_numeric(c: char) -> (r: bool)
    ensures
        r == is_numeric_char(c),
        c as u32 >= 0x80 ==> r == unicode_numeric_ext(c),
{
    c.is_numeric()
}

} // verus!
