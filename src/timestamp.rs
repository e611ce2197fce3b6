//! UTC timestamps written as `YYYY-MM-DD HH:MM:SS`, read and written through chrono.
use chrono::{Datelike, NaiveDate, TimeZone, Timelike, Utc};
use vstd::prelude::*;

verus! {

/// The one pattern used both to read and to write timestamps.
pub const TIME_FORMAT: &'static str = "%Y-%m-%d %H:%M:%S";

/// Smallest year that chrono's dates can hold.
pub const MIN_YEAR: i32 = -262143;

/// Largest year that chrono's dates can hold.
pub const MAX_YEAR: i32 = 262142;

/// A UTC instant as calendar fields. A leap second is second 59 with
/// `nanosecond` one billion, as chrono keeps it.
#[derive(Clone, Copy, Debug, PartialEq, Eq, Structural)]
pub struct Timestamp {
    pub year: i32,
    pub month: u32,
    pub day: u32,
    pub hour: u32,
    pub minute: u32,
    pub second: u32,
    pub nanosecond: u32,
}

/// Gregorian leap year.
pub open spec fn is_leap_year(y: int) -> bool {
    (y % 4 == 0 && y % 100 != 0) || y % 400 == 0
}

/// Number of days in month `m` (1 to 12) of year `y`.
pub open spec fn days_in_month(y: int, m: int) -> int {
    if m == 2 {
        if is_leap_year(y) {
            29
        } else {
            28
        }
    } else if m == 4 || m == 6 || m == 9 || m == 11 {
        30
    } else {
        31
    }
}

/// A valid calendar date and time of day, leap second included, within chrono's years.
pub open spec fn valid_fields(y: int, mo: int, d: int, h: int, mi: int, s: int, ns: int) -> bool {
    &&& MIN_YEAR <= y <= MAX_YEAR
    &&& 1 <= mo <= 12
    &&& 1 <= d <= days_in_month(y, mo)
    &&& 0 <= h < 24
    &&& 0 <= mi < 60
    &&& 0 <= s < 60
    &&& (ns == 0 || (s == 59 && ns == 1_000_000_000))
}

impl Timestamp {
    /// The fields name an existing instant.
    pub open spec fn wf(&self) -> bool {
        valid_fields(
            self.year as int,
            self.month as int,
            self.day as int,
            self.hour as int,
            self.minute as int,
            self.second as int,
            self.nanosecond as int,
        )
    }

    /// The second as written: 60 for a leap second.
    pub open spec fn shown_second(&self) -> int {
        if self.nanosecond >= 1_000_000_000 {
            self.second + 1
        } else {
            self.second as int
        }
    }
}

pub open spec fn is_digit(c: char) -> bool {
    '0' <= c <= '9'
}

pub open spec fn digit_value(c: char) -> int {
    c as int - '0' as int
}

pub open spec fn digit_char(d: int) -> char {
    if d == 0 {
        '0'
    } else if d == 1 {
        '1'
    } else if d == 2 {
        '2'
    } else if d == 3 {
        '3'
    } else if d == 4 {
        '4'
    } else if d == 5 {
        '5'
    } else if d == 6 {
        '6'
    } else if d == 7 {
        '7'
    } else if d == 8 {
        '8'
    } else {
        '9'
    }
}

/// The text has the exact shape `DDDD-DD-DD DD:DD:DD`, each `D` a decimal digit.
pub open spec fn has_stamp_shape(s: Seq<char>) -> bool {
    &&& s.len() == 19
    &&& forall|i: int|
        0 <= i < 19 && i != 4 && i != 7 && i != 10 && i != 13 && i != 16 ==> is_digit(
            #[trigger] s[i],
        )
    &&& s[4] == '-'
    &&& s[7] == '-'
    &&& s[10] == ' '
    &&& s[13] == ':'
    &&& s[16] == ':'
}

/// The two-digit number at positions `i` and `i + 1`.
pub open spec fn two_digits(s: Seq<char>, i: int) -> int {
    digit_value(s[i]) * 10 + digit_value(s[i + 1])
}

/// The four-digit year at the start.
pub open spec fn four_digits(s: Seq<char>) -> int {
    digit_value(s[0]) * 1000 + digit_value(s[1]) * 100 + two_digits(s, 2)
}

/// A text of the stamp shape whose fields name an instant; the seconds may read 60.
pub open spec fn is_stamp_text(s: Seq<char>) -> bool {
    &&& has_stamp_shape(s)
    &&& 1 <= two_digits(s, 5) <= 12
    &&& 1 <= two_digits(s, 8) <= days_in_month(four_digits(s), two_digits(s, 5))
    &&& two_digits(s, 11) < 24
    &&& two_digits(s, 14) < 60
    &&& two_digits(s, 17) <= 60
}

/// The instant that a text of the stamp shape names.
pub open spec fn stamp_of_text(s: Seq<char>) -> Timestamp {
    let sec = two_digits(s, 17);
    Timestamp {
        year: four_digits(s) as i32,
        month: two_digits(s, 5) as u32,
        day: two_digits(s, 8) as u32,
        hour: two_digits(s, 11) as u32,
        minute: two_digits(s, 14) as u32,
        second: if sec == 60 {
            59
        } else {
            sec as u32
        },
        nanosecond: if sec == 60 {
            1_000_000_000
        } else {
            0
        },
    }
}

pub open spec fn two_digit_text(v: int) -> Seq<char> {
    seq![digit_char(v / 10), digit_char(v % 10)]
}

pub open spec fn four_digit_text(v: int) -> Seq<char> {
    seq![digit_char(v / 1000), digit_char(v / 100 % 10), digit_char(v / 10 % 10), digit_char(v % 10)]
}

/// The pattern's text of an instant whose year has at most four digits.
pub open spec fn stamp_text(t: Timestamp) -> Seq<char> {
    four_digit_text(t.year as int) + seq!['-'] + two_digit_text(t.month as int) + seq!['-']
        + two_digit_text(t.day as int) + seq![' '] + two_digit_text(t.hour as int) + seq![':']
        + two_digit_text(t.minute as int) + seq![':'] + two_digit_text(t.shown_second())
}

/// What chrono reads from a text with the timestamp pattern.
pub uninterp spec fn parsed_utc(s: Seq<char>) -> Option<Timestamp>;

/// What chrono writes for an instant with the timestamp pattern.
pub uninterp spec fn utc_text(t: Timestamp) -> Seq<char>;

/// Relies on chrono's `TimeZone::datetime_from_str` for `Utc` with `TIME_FORMAT`:
/// its result is a valid instant whose nanosecond is 0, or one billion for a
/// leap second; a text of the exact stamp shape is read field by field, and is
/// refused when a field is out of range.
#[verifier::external_body]
#[allow(deprecated)]
fn chrono_parse(s: &str) -> (r: Option<Timestamp>)
    ensures
        r == parsed_utc(s@),
        r matches Some(t) ==> t.wf(),
        has_stamp_shape(s@) ==> r == (if is_stamp_text(s@) {
            Some(stamp_of_text(s@))
        } else {
            None
        }),
{
    match Utc.datetime_from_str(s, TIME_FORMAT) {
        Ok(d) => Some(Timestamp {
            year: d.year(),
            month: d.month(),
            day: d.day(),
            hour: d.hour(),
            minute: d.minute(),
            second: d.second(),
            nanosecond: d.nanosecond(),
        }),
        Err(_) => None,
    }
}

/// Relies on chrono's `DateTime::<Utc>::format` with `TIME_FORMAT`: a year
/// from 0 to 9999 is written with four digits, every other field with two, and
/// a leap second as 60.
#[verifier::external_body]
fn chrono_format(t: Timestamp) -> (r: String)
    requires
        t.wf(),
    ensures
        r@ == utc_text(t),
        0 <= t.year <= 9999 ==> r@ == stamp_text(t),
{
    let date = NaiveDate::from_ymd_opt(t.year, t.month, t.day).unwrap();
    let time = date.and_hms_nano_opt(t.hour, t.minute, t.second, t.nanosecond).unwrap();
    time.and_utc().format(TIME_FORMAT).to_string()
}

/// Reads a timestamp text as a UTC instant; `None` where it does not match the
/// pattern or names no instant.
pub fn deserialize(s: &str) -> (r: Option<Timestamp>)
    ensures
        r == parsed_utc(s@),
        r matches Some(t) ==> t.wf(),
        has_stamp_shape(s@) ==> (r is Some <==> is_stamp_text(s@)),
        is_stamp_text(s@) ==> r == Some(stamp_of_text(s@)),
{
    chrono_parse(s)
}

/// Writes an instant as timestamp text.
pub fn serialize(t: Timestamp) -> (r: String)
    requires
        t.wf(),
    ensures
        r@ == utc_text(t),
        0 <= t.year <= 9999 ==> r@ == stamp_text(t),
{
    chrono_format(t)
}

proof fn lemma_digit_round_trip(c: char)
    requires
        is_digit(c),
    ensures
        digit_char(digit_value(c)) == c,
{
}

/// A timestamp text of the exact stamp shape that names an instant is written
/// back as the same text.
pub proof fn lemma_stamp_text_round_trip(s: Seq<char>)
    requires
        is_stamp_text(s),
    ensures
        stamp_of_text(s).wf(),
        stamp_text(stamp_of_text(s)) == s,
{
    assert forall|i: int| 0 <= i < 19 && i != 4 && i != 7 && i != 10 && i != 13 && i != 16 implies digit_char(
        digit_value(s[i]),
    ) == s[i] && 0 <= digit_value(s[i]) <= 9 by {
        assert(is_digit(s[i]));
        lemma_digit_round_trip(s[i]);
    }
    let (a, b, c, d) = (digit_value(s[0]), digit_value(s[1]), digit_value(s[2]), digit_value(s[3]));
    let y = four_digits(s);
    assert(y / 1000 == a && y / 100 % 10 == b && y / 10 % 10 == c && y % 10 == d) by (nonlinear_arith)
        requires
            y == a * 1000 + b * 100 + (c * 10 + d),
            0 <= a <= 9,
            0 <= b <= 9,
            0 <= c <= 9,
            0 <= d <= 9,
    ;
    assert forall|i: int| i == 5 || i == 8 || i == 11 || i == 14 || i == 17 implies two_digit_text(
        two_digits(s, i),
    ) == s.subrange(i, i + 2) by {
        let (p, q) = (digit_value(s[i]), digit_value(s[i + 1]));
        let v = two_digits(s, i);
        assert(v / 10 == p && v % 10 == q) by (nonlinear_arith)
            requires
                v == p * 10 + q,
                0 <= p <= 9,
                0 <= q <= 9,
        ;
        assert(two_digit_text(v) =~= s.subrange(i, i + 2));
    }
    let t = stamp_of_text(s);
    assert(t.shown_second() == two_digits(s, 17));
    assert(two_digit_text(t.month as int) == s.subrange(5, 7));
    assert(two_digit_text(t.day as int) == s.subrange(8, 10));
    assert(two_digit_text(t.hour as int) == s.subrange(11, 13));
    assert(two_digit_text(t.minute as int) == s.subrange(14, 16));
    assert(two_digit_text(t.shown_second()) == s.subrange(17, 19));
    assert(stamp_text(t) =~= s);
}

/// Reads a timestamp text and writes it back. A text of the exact stamp shape
/// that names an instant comes back unchanged.
pub fn reformat_timestamp(s: &str) -> (r: Option<String>)
    ensures
        r is Some <==> parsed_utc(s@) is Some,
        r matches Some(o) ==> o@ == utc_text(parsed_utc(s@)->Some_0),
        is_stamp_text(s@) ==> (r matches Some(o) && o@ == s@),
{
    match deserialize(s) {
        Some(t) => {
            proof {
                if is_stamp_text(s@) {
                    lemma_stamp_text_round_trip(s@);
                }
            }
            Some(serialize(t))
        },
        None => None,
    }
}

} // verus!
