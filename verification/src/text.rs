use vstd::prelude::*;
use vstd::string::StrSliceExecFns;

use crate::error::IntErrorKind;
use crate::error::ParseError;
use crate::flake::flake_of;
use crate::flake::parse;
use crate::flake::Dflake;
use crate::unicode::char_is_numeric;
use crate::unicode::char_is_whitespace;
use crate::unicode::is_digit_char;
use crate::unicode::is_numeric_char;
use crate::unicode::is_space_char;

verus! {

/// The numeric value of an ASCII decimal digit.
pub open spec fn digit_value(c: char) -> int {
    c as u32 - 0x30
}

/// The value a string of decimal digits spells, read left to right.
pub open spec fn numeral_value(s: Seq<char>) -> int
    decreases s.len(),
{
    if s.len() == 0 {
        0
    } else {
        numeral_value(s.drop_last()) * 10 + digit_value(s.last())
    }
}

/// What [`parse_u64`] returns, for every character sequence.
pub open spec fn parse_u64_spec(s: Seq<char>) -> Result<u64, IntErrorKind> {
    if s.len() == 0 {
        Err(IntErrorKind::Empty)
    } else if exists|i: int| 0 <= i < s.len() && !is_digit_char(s[i]) {
        Err(IntErrorKind::InvalidDigit)
    } else if numeral_value(s) > u64::MAX {
        Err(IntErrorKind::PosOverflow)
    } else {
        Ok(numeral_value(s) as u64)
    }
}

/// What [`parse_str`] returns, for every character sequence: the whitespace
/// check comes first, then the numeric-character check, then the length
/// check, and last the integer parse.
pub open spec fn parse_str_spec(s: Seq<char>) -> Result<Dflake, ParseError> {
    if exists|i: int| 0 <= i < s.len() && is_space_char(s[i]) {
        Err(ParseError::ContainsWhitespace)
    } else if exists|i: int| 0 <= i < s.len() && !is_numeric_char(s[i]) {
        Err(ParseError::InvalidChar)
    } else if s.len() > 20 {
        Err(ParseError::TooLarge)
    } else {
        match parse_u64_spec(s) {
            Ok(v) => Ok(flake_of(v)),
            Err(e) => Err(ParseError::ParseIntError(e)),
        }
    }
}

/// A digit string is nonnegative.
proof fn lemma_numeral_nonneg(s: Seq<char>)
    requires
        forall|j: int| 0 <= j < s.len() ==> is_digit_char(s[j]),
    ensures
        numeral_value(s) >= 0,
    decreases s.len(),
{
    if s.len() > 0 {
        lemma_numeral_nonneg(s.drop_last());
    }
}

/// Reading one more digit multiplies the prefix value by ten and adds it.
proof fn lemma_numeral_step(s: Seq<char>, i: int)
    requires
        0 <= i < s.len(),
    ensures
        numeral_value(s.take(i + 1)) == numeral_value(s.take(i)) * 10 + digit_value(s[i]),
{
    assert(s.take(i + 1).drop_last() =~= s.take(i));
    assert(s.take(i + 1).last() == s[i]);
}

/// In a digit string, a prefix never spells more than the whole.
proof fn lemma_numeral_prefix_le(s: Seq<char>, i: int)
    requires
        0 <= i <= s.len(),
        forall|j: int| 0 <= j < s.len() ==> is_digit_char(s[j]),
    ensures
        numeral_value(s.take(i)) <= numeral_value(s),
    decreases s.len() - i,
{
    if i == s.len() {
        assert(s.take(i) =~= s);
    } else {
        lemma_numeral_step(s, i);
        lemma_numeral_nonneg(s.take(i));
        lemma_numeral_prefix_le(s, i + 1);
    }
}

/// Parses a string of ASCII decimal digits into the u64 it spells.
pub fn parse_u64(input: &str) -> (r: Result<u64, IntErrorKind>)
    ensures
        r == parse_u64_spec(input@),
{
    let n: usize = input.unicode_len();
    if n == 0 {
        return Err(IntErrorKind::Empty);
    }
    let mut i: usize = 0;
    while i < n
        invariant
            n == input@.len(),
            i <= n,
            forall|j: int| 0 <= j < i ==> is_digit_char(input@[j]),
        decreases n - i,
    {
        let c: char = input.get_char(i);
        let cu: u32 = c as u32;
        if cu < 0x30 || cu > 0x39 {
            assert(!is_digit_char(input@[i as int]));
            return Err(IntErrorKind::InvalidDigit);
        }
        i += 1;
    }
    let mut acc: u64 = 0;
    let mut k: usize = 0;
    while k < n
        invariant
            n == input@.len(),
            k <= n,
            forall|j: int| 0 <= j < n ==> is_digit_char(input@[j]),
            acc == numeral_value(input@.take(k as int)),
        decreases n - k,
    {
        let c: char = input.get_char(k);
        assert(is_digit_char(input@[k as int]));
        let d: u64 = (c as u32 - 0x30) as u64;
        proof {
            lemma_numeral_step(input@, k as int);
        }
        let limit: u64 = (u64::MAX - d) / 10;
        proof {
            assert(10 * ((u64::MAX - d) / 10) + (u64::MAX - d) % 10 == u64::MAX - d);
        }
        if acc > limit {
            proof {
                lemma_numeral_prefix_le(input@, k + 1);
            }
            return Err(IntErrorKind::PosOverflow);
        }
        acc = acc * 10 + d;
        k += 1;
    }
    proof {
        assert(input@.take(n as int) =~= input@);
    }
    Ok(acc)
}

/// Tries to parse a string into a [`Dflake`]. The string must be free of
/// whitespace, consist of numeric characters, and spell a decimal numeral
/// of at most 20 digits that fits in 64 bits; the checks run in that order
/// and the first failing one decides the error.
pub fn parse_str(input: &str) -> (r: Result<Dflake, ParseError>)
    ensures
        r == parse_str_spec(input@),
{
    let n: usize = input.unicode_len();
    let mut i: usize = 0;
    while i < n
        invariant
            n == input@.len(),
            i <= n,
            forall|j: int| 0 <= j < i ==> !is_space_char(input@[j]),
        decreases n - i,
    {
        let c: char = input.get_char(i);
        if char_is_whitespace(c) {
            assert(is_space_char(input@[i as int]));
            return Err(ParseError::ContainsWhitespace);
        }
        i += 1;
    }
    let mut k: usize = 0;
    while k < n
        invariant
            n == input@.len(),
            k <= n,
            forall|j: int| 0 <= j < n ==> !is_space_char(input@[j]),
            forall|j: int| 0 <= j < k ==> is_numeric_char(input@[j]),
        decreases n - k,
    {
        let c: char = input.get_char(k);
        if !char_is_numeric(c) {
            assert(!is_numeric_char(input@[k as int]));
            return Err(ParseError::InvalidChar);
        }
        k += 1;
    }
    if n > 20 {
        return Err(ParseError::TooLarge);
    }
    match parse_u64(input) {
        Ok(v) => Ok(parse(v)),
        Err(e) => Err(ParseError::from(e)),
    }
}

/// The whitespace check precedes the length check: a string that is both
/// too long and contains whitespace is rejected for the whitespace.
pub proof fn lemma_whitespace_checked_first(s: Seq<char>)
    requires
        s.len() > 20,
        exists|i: int| 0 <= i < s.len() && is_space_char(s[i]),
    ensures
        parse_str_spec(s) == Err::<Dflake, ParseError>(ParseError::ContainsWhitespace),
{
}

/// A nonempty string of at most 20 ASCII decimal digits that spells a value
/// fitting in 64 bits is accepted, and decodes that value.
pub proof fn lemma_digits_accepted(s: Seq<char>)
    requires
        1 <= s.len() <= 20,
        forall|i: int| 0 <= i < s.len() ==> is_digit_char(s[i]),
        numeral_value(s) <= u64::MAX,
    ensures
        parse_str_spec(s) == Ok::<Dflake, ParseError>(flake_of(numeral_value(s) as u64)),
{
    assert forall|i: int| 0 <= i < s.len() implies !is_space_char(s[i]) by {
        assert(is_digit_char(s[i]));
    }
    assert forall|i: int| 0 <= i < s.len() implies is_numeric_char(s[i]) by {
        assert(is_digit_char(s[i]));
    }
    lemma_numeral_nonneg(s);
}

} // verus!
