//! Reading integer fields: decimal, or hexadecimal after a `0x` prefix.
use vstd::prelude::*;

verus! {

/// The value of `c` as a digit in base `radix` (10 or 16), if it is one.
pub open spec fn radix_digit(c: char, radix: int) -> Option<int> {
    if '0' <= c <= '9' {
        Some(c as int - '0' as int)
    } else if radix == 16 && 'a' <= c <= 'f' {
        Some(c as int - 'a' as int + 10)
    } else if radix == 16 && 'A' <= c <= 'F' {
        Some(c as int - 'A' as int + 10)
    } else {
        None
    }
}

/// The value of a run of digits in base `radix`; the empty run is 0.
pub open spec fn digits_value(s: Seq<char>, radix: int) -> Option<int>
    decreases s.len(),
{
    if s.len() == 0 {
        Some(0)
    } else {
        match (digits_value(s.drop_last(), radix), radix_digit(s.last(), radix)) {
            (Some(a), Some(d)) => Some(a * radix + d),
            _ => None,
        }
    }
}

/// One or more digits in base `radix`.
pub open spec fn unsigned_value(s: Seq<char>, radix: int) -> Option<int> {
    if s.len() == 0 {
        None
    } else {
        digits_value(s, radix)
    }
}

/// An optional `+` or `-` sign, then one or more digits in base `radix`.
pub open spec fn signed_value(s: Seq<char>, radix: int) -> Option<int> {
    if s.len() > 0 && s[0] == '-' {
        match unsigned_value(s.skip(1), radix) {
            Some(v) => Some(-v),
            None => None,
        }
    } else if s.len() > 0 && s[0] == '+' {
        unsigned_value(s.skip(1), radix)
    } else {
        unsigned_value(s, radix)
    }
}

pub open spec fn in_i64(v: int) -> bool {
    i64::MIN <= v <= i64::MAX
}

pub open spec fn in_i32(v: int) -> bool {
    i32::MIN <= v <= i32::MAX
}

/// A signed 64-bit integer written in base `radix`.
pub open spec fn i64_value(s: Seq<char>, radix: int) -> Option<int> {
    match signed_value(s, radix) {
        Some(v) => if in_i64(v) {
            Some(v)
        } else {
            None
        },
        None => None,
    }
}

pub open spec fn has_hex_prefix(s: Seq<char>) -> bool {
    s.len() >= 2 && s[0] == '0' && s[1] == 'x'
}

/// The integer that a field's text names: hexadecimal after a `0x` prefix,
/// decimal otherwise, within the signed 64-bit range.
pub open spec fn int_field_value(s: Seq<char>) -> Option<int> {
    if has_hex_prefix(s) {
        i64_value(s.skip(2), 16)
    } else {
        i64_value(s, 10)
    }
}

/// Relies on `str::parse::<i64>`: an optional sign, then decimal digits, whose
/// value fits in `i64`.
#[verifier::external_body]
fn parse_decimal(s: &str) -> (r: Option<i64>)
    ensures
        r matches Some(v) ==> i64_value(s@, 10) == Some(v as int),
        r is None ==> i64_value(s@, 10) is None,
{
    s.parse::<i64>().ok()
}

/// Relies on `i64::from_str_radix` in base 16: an optional sign, then
/// hexadecimal digits of either case, whose value fits in `i64`.
#[verifier::external_body]
fn parse_hex(s: &str) -> (r: Option<i64>)
    ensures
        r matches Some(v) ==> i64_value(s@, 16) == Some(v as int),
        r is None ==> i64_value(s@, 16) is None,
{
    i64::from_str_radix(s, 16).ok()
}

/// Reads an integer field: hexadecimal after a `0x` prefix, decimal otherwise.
pub fn read_int(s: &str) -> (r: Option<i64>)
    ensures
        r matches Some(v) ==> int_field_value(s@) == Some(v as int),
        r is None ==> int_field_value(s@) is None,
{
    let n = s.unicode_len();
    if n >= 2 && s.get_char(0) == '0' && s.get_char(1) == 'x' {
        let rest = s.substring_char(2, n);
        assert(rest@ =~= s@.skip(2));
        parse_hex(rest)
    } else {
        parse_decimal(s)
    }
}

/// Reads a 32-bit integer field: as `read_int`, within the signed 32-bit range.
pub fn read_int32(s: &str) -> (r: Option<i32>)
    ensures
        r matches Some(v) ==> int_field_value(s@) == Some(v as int),
        r is None ==> (int_field_value(s@) matches Some(v) ==> !in_i32(v)),
{
    match read_int(s) {
        Some(v) => if i32::MIN as i64 <= v && v <= i32::MAX as i64 {
            Some(v as i32)
        } else {
            None
        },
        None => None,
    }
}

} // verus!
