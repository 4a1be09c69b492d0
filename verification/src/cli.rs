//! Validation of the user-supplied light level and zone colors: a decimal
//! light level in `0..=255` and two six-digit hexadecimal color strings.
//! Anything else is rejected before any device access is attempted.

use vstd::prelude::*;
use vstd::string::StrSliceExecFns;

use crate::codec::Color;
use crate::DriverError;

verus! {

/// The validated record the driver operates on.
#[derive(Clone, Copy, Debug, PartialEq, Eq, Structural)]
pub struct Args {
    pub first_color: Color,
    pub second_color: Color,
    pub light_level: u8,
}

/// A hexadecimal digit, upper or lower case.
pub open spec fn is_hex_digit(c: char) -> bool {
    ('0' <= c && c <= '9') || ('a' <= c && c <= 'f') || ('A' <= c && c <= 'F')
}

/// The value of one hexadecimal digit.
pub open spec fn hex_digit_value(c: char) -> int {
    if '0' <= c && c <= '9' {
        c as u32 - '0' as u32
    } else if 'a' <= c && c <= 'f' {
        c as u32 - 'a' as u32 + 10
    } else {
        c as u32 - 'A' as u32 + 10
    }
}

/// The byte written as the two hexadecimal digits `hi`, `lo`.
pub open spec fn hex_pair_value(hi: char, lo: char) -> u8 {
    (hex_digit_value(hi) * 16 + hex_digit_value(lo)) as u8
}

pub open spec fn all_hex_digits(s: Seq<char>) -> bool {
    forall|i: int| 0 <= i < s.len() ==> is_hex_digit(s[i])
}

/// The bytes an even-length string of hexadecimal digits decodes to.
pub open spec fn hex_decoded(s: Seq<char>) -> Seq<u8> {
    Seq::new((s.len() / 2) as nat, |i: int| hex_pair_value(s[2 * i], s[2 * i + 1]))
}

/// Relies on hex::decode: an even-length string of hexadecimal digits
/// (`0-9`, `a-f`, `A-F`) decodes pairwise into bytes, high digit first, and
/// any string of odd length or with another character is rejected.
#[verifier::external_body]
fn hex_decode(s: &str) -> (r: Option<Vec<u8>>)
    ensures
        r matches Some(v) ==> s@.len() % 2 == 0 && all_hex_digits(s@) && v@ == hex_decoded(s@),
        r is None ==> !(s@.len() % 2 == 0 && all_hex_digits(s@)),
{
    match hex::decode(s) {
        Ok(v) => Some(v),
        Err(_) => None,
    }
}

/// A color string is accepted exactly when it is six hexadecimal digits.
pub open spec fn color_accepted(s: Seq<char>) -> bool {
    s.len() == 6 && all_hex_digits(s)
}

/// The color a six-digit hexadecimal string denotes.
pub open spec fn color_of(s: Seq<char>) -> Color {
    Color {
        r: hex_pair_value(s[0], s[1]),
        g: hex_pair_value(s[2], s[3]),
        b: hex_pair_value(s[4], s[5]),
    }
}

/// Decode a user-supplied color string, rejecting anything that is not six
/// hexadecimal digits.
pub fn parse_color(s: &str) -> (r: Result<Color, DriverError>)
    ensures
        r is Ok <==> color_accepted(s@),
        r matches Ok(c) ==> c == color_of(s@),
        r matches Err(e) ==> e == DriverError::InvalidArgument,
{
    match hex_decode(s) {
        Some(v) => {
            if v.len() == 3 {
                Ok(Color { r: v[0], g: v[1], b: v[2] })
            } else {
                Err(DriverError::InvalidArgument)
            }
        },
        None => Err(DriverError::InvalidArgument),
    }
}

/// A decimal digit.
pub open spec fn is_dec_digit(c: char) -> bool {
    '0' <= c && c <= '9'
}

pub open spec fn dec_digit_value(c: char) -> int {
    c as u32 - '0' as u32
}

/// The value of a string of decimal digits, most significant first.
pub open spec fn dec_value(s: Seq<char>) -> int
    decreases s.len(),
{
    if s.len() == 0 {
        0
    } else {
        dec_value(s.drop_last()) * 10 + dec_digit_value(s.last())
    }
}

pub open spec fn has_sign(s: Seq<char>) -> bool {
    s.len() > 0 && (s[0] == '+' || s[0] == '-')
}

/// The digits of a numeral, past an optional leading sign.
pub open spec fn digits_of(s: Seq<char>) -> Seq<char> {
    if has_sign(s) {
        s.drop_first()
    } else {
        s
    }
}

pub open spec fn all_dec_digits(s: Seq<char>) -> bool {
    forall|i: int| 0 <= i < s.len() ==> is_dec_digit(s[i])
}

/// A signed decimal numeral: an optional sign followed by one or more digits.
pub open spec fn is_numeral(s: Seq<char>) -> bool {
    digits_of(s).len() > 0 && all_dec_digits(digits_of(s))
}

/// The signed value of a numeral.
pub open spec fn numeral_value(s: Seq<char>) -> int {
    if s.len() > 0 && s[0] == '-' {
        -dec_value(digits_of(s))
    } else {
        dec_value(digits_of(s))
    }
}

/// A light-level string is accepted exactly when it is a decimal numeral
/// whose value lies in `0..=255`.
pub open spec fn light_accepted(s: Seq<char>) -> bool {
    is_numeral(s) && 0 <= numeral_value(s) <= 255
}

/// Parse a user-supplied light level, rejecting anything that is not a
/// decimal numeral in `0..=255`.
#[verifier::loop_isolation(false)]
pub fn parse_light(s: &str) -> (r: Result<u8, DriverError>)
    ensures
        r is Ok <==> light_accepted(s@),
        r matches Ok(v) ==> v as int == numeral_value(s@),
        r matches Err(e) ==> e == DriverError::InvalidArgument,
{
    let n: usize = s.unicode_len();
    if n == 0 {
        return Err(DriverError::InvalidArgument);
    }
    let c0 = s.get_char(0);
    let negative = c0 == '-';
    let signed = c0 == '-' || c0 == '+';
    let start: usize = if signed {
        1
    } else {
        0
    };
    if start == n {
        // A bare sign has no digits.
        return Err(DriverError::InvalidArgument);
    }
    // `acc` tracks the value of the digits read so far, clamped to 256 once
    // it can no longer be a valid light level.
    let mut acc: u32 = 0;
    let mut i: usize = start;
    while i < n
        invariant
            start <= i <= n,
            all_dec_digits(s@.subrange(start as int, i as int)),
            ({
                let v = dec_value(s@.subrange(start as int, i as int));
                (v <= 255 && acc == v) || (v > 255 && acc == 256)
            }),
        decreases n - i,
    {
        let c = s.get_char(i);
        let u: u32 = c as u32;
        if u < 48 || u > 57 {
            proof {
                let d = digits_of(s@);
                assert(d[i - start] == s@[i as int]);
                assert(!all_dec_digits(d));
            }
            return Err(DriverError::InvalidArgument);
        }
        proof {
            let p = s@.subrange(start as int, i as int);
            let q = s@.subrange(start as int, (i + 1) as int);
            assert(q =~= p.push(s@[i as int]));
            assert(q.drop_last() =~= p);
            assert(dec_value(q) == dec_value(p) * 10 + dec_digit_value(s@[i as int]));
        }
        let d: u32 = u - 48;
        acc = if acc > 255 {
            256
        } else {
            let t: u32 = acc * 10 + d;
            if t > 255 {
                256
            } else {
                t
            }
        };
        i = i + 1;
    }
    proof {
        assert(digits_of(s@) =~= s@.subrange(start as int, n as int));
    }
    if negative {
        if acc == 0 {
            Ok(0)
        } else {
            Err(DriverError::InvalidArgument)
        }
    } else if acc > 255 {
        Err(DriverError::InvalidArgument)
    } else {
        Ok(acc as u8)
    }
}

pub open spec fn args_accepted(light: Seq<char>, color1: Seq<char>, color2: Seq<char>) -> bool {
    light_accepted(light) && color_accepted(color1) && color_accepted(color2)
}

/// Validate the three user-supplied option strings into the record the
/// driver operates on; the first offending value is rejected.
pub fn validate_args(light: &str, color1: &str, color2: &str) -> (r: Result<Args, DriverError>)
    ensures
        r is Ok <==> args_accepted(light@, color1@, color2@),
        r matches Ok(a) ==> a.light_level as int == numeral_value(light@) && a.first_color
            == color_of(color1@) && a.second_color == color_of(color2@),
        r matches Err(e) ==> e == DriverError::InvalidArgument,
{
    let light_level = match parse_light(light) {
        Ok(v) => v,
        Err(e) => {
            return Err(e);
        },
    };
    let first_color = match parse_color(color1) {
        Ok(c) => c,
        Err(e) => {
            return Err(e);
        },
    };
    let second_color = match parse_color(color2) {
        Ok(c) => c,
        Err(e) => {
            return Err(e);
        },
    };
    Ok(Args { first_color, second_color, light_level })
}

} // verus!
