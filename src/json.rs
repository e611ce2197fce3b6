//! JSON text for the values of a record, written through serde_json.
use vstd::prelude::*;

verus! {

pub open spec fn digit_text(d: int) -> char {
    if d == 0 {
        '0'
    } else if d == 1 {
        '1'
    } else if d == 2 {
        '2'
    } else if d == 3 {
        '3'
    } else if d == 4 {
        '4'
    } else if d == 5 {
        '5'
    } else if d == 6 {
        '6'
    } else if d == 7 {
        '7'
    } else if d == 8 {
        '8'
    } else {
        '9'
    }
}

/// The decimal digits of a natural number, without leading zeros.
pub open spec fn nat_text(n: nat) -> Seq<char>
    decreases n,
{
    if n < 10 {
        seq![digit_text(n as int)]
    } else {
        nat_text(n / 10) + seq![digit_text((n % 10) as int)]
    }
}

/// The JSON number of an integer: a minus sign for a negative one, then its digits.
pub open spec fn int_text(v: int) -> Seq<char> {
    if v < 0 {
        seq!['-'] + nat_text((-v) as nat)
    } else {
        nat_text(v as nat)
    }
}

/// The JSON `null` literal.
pub open spec fn null_text() -> Seq<char> {
    seq!['n', 'u', 'l', 'l']
}

/// What serde_json writes for a string value: quoted and escaped.
pub uninterp spec fn json_quoted(s: Seq<char>) -> Seq<char>;

/// Relies on serde_json's `Value::String` written with `to_string`: the JSON
/// string literal of `s`.
#[verifier::external_body]
pub(crate) fn quote_string(s: &str) -> (r: String)
    ensures
        r@ == json_quoted(s@),
{
    serde_json::Value::String(s.to_owned()).to_string()
}

/// Relies on serde_json's `Value::from(i64)` written with `to_string`: the
/// integer in decimal, with a minus sign when negative.
#[verifier::external_body]
pub(crate) fn int_number(v: i64) -> (r: String)
    ensures
        r@ == int_text(v as int),
{
    serde_json::Value::from(v).to_string()
}

} // verus!
