//! Typed boolean resolver: interprets a text value first as a canonical
//! boolean literal, then as an unsigned 8-bit integer (truth is `value != 0`),
//! and reports a combined failure when both interpretations fail.

use vstd::prelude::*;
use vstd::string::StrSliceExecFns;

verus! {

/// Failure of the canonical-literal interpretation: the text is neither of
/// the two canonical boolean spellings.
#[derive(Clone, Copy, Debug, PartialEq, Eq, Structural)]
pub struct BoolLiteralError;

/// Failure of the unsigned 8-bit integer interpretation, mirroring the
/// distinctions a decimal scan can make.
#[derive(Clone, Copy, Debug, PartialEq, Eq, Structural)]
pub enum IntParseError {
    /// The text was empty.
    Empty,
    /// A character was not a decimal digit (or a sign stood alone).
    InvalidDigit,
    /// The digits denote a value above the 8-bit maximum.
    PosOverflow,
}

/// Combined failure of both interpretations, carrying each underlying
/// failure for diagnostics.
#[derive(Clone, Copy, Debug, PartialEq, Eq, Structural)]
pub struct ParseBoolFromIntError {
    pub bool_error: BoolLiteralError,
    pub int_error: IntParseError,
}

/// The canonical-literal grammar: exact, case-sensitive match on the two
/// canonical spellings.
pub open spec fn spec_parse_bool_literal(s: Seq<char>) -> Result<bool, BoolLiteralError> {
    if s == "true"@ {
        Ok(true)
    } else if s == "false"@ {
        Ok(false)
    } else {
        Err(BoolLiteralError)
    }
}

pub open spec fn is_ascii_digit(c: char) -> bool {
    '0' <= c && c <= '9'
}

pub open spec fn digit_value(c: char) -> int {
    c as int - '0' as int
}

/// Left-to-right decimal scan of `d` with accumulator `acc`: an invalid
/// character is reported where it stands, an accumulated value above the
/// 8-bit maximum is reported as overflow.
pub open spec fn spec_scan_u8(d: Seq<char>, acc: nat) -> Result<u8, IntParseError>
    decreases d.len(),
{
    if d.len() == 0 {
        Ok(acc as u8)
    } else if !is_ascii_digit(d[0]) {
        Err(IntParseError::InvalidDigit)
    } else if acc * 10 + digit_value(d[0]) > 255 {
        Err(IntParseError::PosOverflow)
    } else {
        spec_scan_u8(d.skip(1), (acc * 10 + digit_value(d[0])) as nat)
    }
}

/// The unsigned 8-bit decimal grammar: an optional leading `+`, then one or
/// more decimal digits whose value fits in 8 bits.
pub open spec fn spec_parse_u8(s: Seq<char>) -> Result<u8, IntParseError> {
    if s.len() == 0 {
        Err(IntParseError::Empty)
    } else {
        let d = if s[0] == '+' { s.skip(1) } else { s };
        if d.len() == 0 {
            Err(IntParseError::InvalidDigit)
        } else {
            spec_scan_u8(d, 0)
        }
    }
}

/// The two-stage grammar: the canonical literal wins; otherwise the text is
/// read as an unsigned 8-bit integer and truth is `value != 0`; otherwise
/// both failures are reported together.
pub open spec fn spec_parse_bool_or_int(s: Seq<char>) -> Result<bool, ParseBoolFromIntError> {
    match spec_parse_bool_literal(s) {
        Ok(b) => Ok(b),
        Err(bool_error) => match spec_parse_u8(s) {
            Ok(v) => Ok(v != 0),
            Err(int_error) => Err(ParseBoolFromIntError { bool_error, int_error }),
        },
    }
}

/// Character-for-character string equality.
pub fn str_eq(a: &str, b: &str) -> (r: bool)
    ensures
        r == (a@ == b@),
{
    let na = a.unicode_len();
    let nb = b.unicode_len();
    if na != nb {
        return false;
    }
    let mut i: usize = 0;
    while i < na
        invariant
            0 <= i <= na,
            na == a@.len(),
            na == b@.len(),
            forall|j: int| 0 <= j < i ==> a@[j] == b@[j],
        decreases na - i,
    {
        if a.get_char(i) != b.get_char(i) {
            return false;
        }
        i = i + 1;
    }
    proof {
        assert(a@ =~= b@);
    }
    true
}

/// Interprets `s` under the canonical-literal grammar.
pub fn parse_bool_literal(s: &str) -> (r: Result<bool, BoolLiteralError>)
    ensures
        r == spec_parse_bool_literal(s@),
{
    if str_eq(s, "true") {
        Ok(true)
    } else if str_eq(s, "false") {
        Ok(false)
    } else {
        Err(BoolLiteralError)
    }
}

/// Interprets `s` under the unsigned 8-bit decimal grammar.
pub fn parse_u8_decimal(s: &str) -> (r: Result<u8, IntParseError>)
    ensures
        r == spec_parse_u8(s@),
{
    let n = s.unicode_len();
    if n == 0 {
        return Err(IntParseError::Empty);
    }
    let start: usize = if s.get_char(0) == '+' {
        1
    } else {
        0
    };
    let ghost d: Seq<char> = s@.skip(start as int);
    proof {
        assert(d =~= (if s@[0] == '+' { s@.skip(1) } else { s@ }));
    }
    if n == start {
        return Err(IntParseError::InvalidDigit);
    }
    proof {
        assert(d.skip(0) =~= d);
    }
    let mut i: usize = start;
    let mut acc: u32 = 0;
    while i < n
        invariant
            start <= i <= n,
            0 < n == s@.len(),
            start == (if s@[0] == '+' { 1int } else { 0int }),
            d == s@.skip(start as int),
            d.len() == n - start,
            d.len() > 0,
            acc <= 255,
            spec_scan_u8(d, 0) == spec_scan_u8(d.skip(i - start), acc as nat),
        decreases n - i,
    {
        let c = s.get_char(i);
        proof {
            assert(d =~= (if s@[0] == '+' { s@.skip(1) } else { s@ }));
            assert(spec_parse_u8(s@) == spec_scan_u8(d, 0));
            assert(d.skip(i - start).len() == d.len() - (i - start));
            assert(d.skip(i - start)[0] == d[i - start]);
            assert(d[i - start] == s@[i as int]);
        }
        if !('0' <= c && c <= '9') {
            return Err(IntParseError::InvalidDigit);
        }
        let dv: u32 = c as u32 - 48;
        let next: u32 = acc * 10 + dv;
        if next > 255 {
            return Err(IntParseError::PosOverflow);
        }
        proof {
            assert(d.skip(i - start).skip(1) =~= d.skip(i + 1 - start));
        }
        acc = next;
        i = i + 1;
    }
    proof {
        assert(d.skip(i - start) =~= Seq::<char>::empty());
    }
    Ok(acc as u8)
}

/// Two-stage resolver: a canonical boolean literal resolves exactly; failing
/// that, an unsigned 8-bit integer resolves to `value != 0`; failing both,
/// the combined failure carries both underlying parse failures.
pub fn parse_bool_or_int(s: &str) -> (r: Result<bool, ParseBoolFromIntError>)
    ensures
        r == spec_parse_bool_or_int(s@),
        s@ == "true"@ ==> r == Ok::<bool, ParseBoolFromIntError>(true),
        s@ == "false"@ ==> r == Ok::<bool, ParseBoolFromIntError>(false),
        spec_parse_bool_literal(s@) is Err ==> (spec_parse_u8(s@) matches Ok(v) ==> r == Ok::<
            bool,
            ParseBoolFromIntError,
        >(v != 0)),
        spec_parse_bool_literal(s@) is Err ==> (spec_parse_u8(s@) matches Err(e) ==> (r matches Err(
            c,
        ) && c.int_error == e)),
{
    proof {
        reveal_strlit("true");
        reveal_strlit("false");
    }
    match parse_bool_literal(s) {
        Ok(b) => Ok(b),
        Err(bool_error) => match parse_u8_decimal(s) {
            Ok(v) => Ok(v != 0),
            Err(int_error) => Err(ParseBoolFromIntError { bool_error, int_error }),
        },
    }
}

} // verus!
