//! The fixed datetime encoding: a timestamp with minute precision is written
//! as "Y-m-d H:M" (four-digit year, two-digit month, day, hour and minute),
//! and a string in that exact shape is parsed back. The format is a hard
//! external-compatibility constraint of the remote API and is not
//! configurable.

use vstd::prelude::*;

use crate::error::{Error, ParseError};

verus! {

/// A calendar timestamp with minute precision, the unit the fixed wire
/// format carries. Seconds are not represented.
#[derive(Clone, Copy, PartialEq, Eq, Structural, Debug)]
pub struct DateTime {
    pub year: u16,
    pub month: u8,
    pub day: u8,
    pub hour: u8,
    pub minute: u8,
}

pub open spec fn spec_is_leap_year(y: int) -> bool {
    (y % 4 == 0 && y % 100 != 0) || y % 400 == 0
}

pub open spec fn spec_days_in_month(y: int, m: int) -> int {
    if m == 2 {
        if spec_is_leap_year(y) {
            29
        } else {
            28
        }
    } else if m == 4 || m == 6 || m == 9 || m == 11 {
        30
    } else {
        31
    }
}

impl DateTime {
    /// The value names a real calendar date (leap years included) and a time
    /// of day, with a year that fits in four digits.
    pub open spec fn wf(self) -> bool {
        &&& self.year <= 9999
        &&& 1 <= self.month <= 12
        &&& 1 <= self.day <= spec_days_in_month(self.year as int, self.month as int)
        &&& self.hour <= 23
        &&& self.minute <= 59
    }
}

pub open spec fn spec_is_digit(c: char) -> bool {
    48 <= c as int <= 57
}

pub open spec fn spec_digit_val(c: char) -> int {
    c as int - 48
}

pub open spec fn spec_digit_char(d: int) -> char {
    if d == 0 {
        '0'
    } else if d == 1 {
        '1'
    } else if d == 2 {
        '2'
    } else if d == 3 {
        '3'
    } else if d == 4 {
        '4'
    } else if d == 5 {
        '5'
    } else if d == 6 {
        '6'
    } else if d == 7 {
        '7'
    } else if d == 8 {
        '8'
    } else {
        '9'
    }
}

/// The sixteen characters "Y-m-d H:M" writes for a timestamp.
pub open spec fn spec_format_datetime(dt: DateTime) -> Seq<char> {
    let y = dt.year as int;
    let mo = dt.month as int;
    let d = dt.day as int;
    let h = dt.hour as int;
    let mi = dt.minute as int;
    seq![
        spec_digit_char(y / 1000),
        spec_digit_char((y / 100) % 10),
        spec_digit_char((y / 10) % 10),
        spec_digit_char(y % 10),
        '-',
        spec_digit_char(mo / 10),
        spec_digit_char(mo % 10),
        '-',
        spec_digit_char(d / 10),
        spec_digit_char(d % 10),
        ' ',
        spec_digit_char(h / 10),
        spec_digit_char(h % 10),
        ':',
        spec_digit_char(mi / 10),
        spec_digit_char(mi % 10),
    ]
}

/// The text has exactly the shape "dddd-dd-dd dd:dd".
pub open spec fn spec_format_shape_ok(s: Seq<char>) -> bool {
    &&& s.len() == 16
    &&& spec_is_digit(s[0]) && spec_is_digit(s[1]) && spec_is_digit(s[2]) && spec_is_digit(s[3])
    &&& s[4] == '-'
    &&& spec_is_digit(s[5]) && spec_is_digit(s[6])
    &&& s[7] == '-'
    &&& spec_is_digit(s[8]) && spec_is_digit(s[9])
    &&& s[10] == ' '
    &&& spec_is_digit(s[11]) && spec_is_digit(s[12])
    &&& s[13] == ':'
    &&& spec_is_digit(s[14]) && spec_is_digit(s[15])
}

/// The timestamp a well-shaped text denotes, before range checking.
pub open spec fn spec_datetime_of(s: Seq<char>) -> DateTime {
    DateTime {
        year: (spec_digit_val(s[0]) * 1000 + spec_digit_val(s[1]) * 100 + spec_digit_val(s[2])
            * 10 + spec_digit_val(s[3])) as u16,
        month: (spec_digit_val(s[5]) * 10 + spec_digit_val(s[6])) as u8,
        day: (spec_digit_val(s[8]) * 10 + spec_digit_val(s[9])) as u8,
        hour: (spec_digit_val(s[11]) * 10 + spec_digit_val(s[12])) as u8,
        minute: (spec_digit_val(s[14]) * 10 + spec_digit_val(s[15])) as u8,
    }
}

/// What parsing returns: the denoted timestamp where the text is well shaped
/// and every component is in range, nothing otherwise.
pub open spec fn spec_parse_datetime(s: Seq<char>) -> Option<DateTime> {
    if spec_format_shape_ok(s) && spec_datetime_of(s).wf() {
        Some(spec_datetime_of(s))
    } else {
        None
    }
}

fn digit_value(c: char) -> (r: Option<u8>)
    ensures
        r is Some <==> spec_is_digit(c),
        r is Some ==> r->0 as int == spec_digit_val(c),
{
    let u = c as u32;
    if 48 <= u && u <= 57 {
        Some((u - 48) as u8)
    } else {
        None
    }
}

fn days_in_month(year: u16, month: u8) -> (r: u8)
    ensures
        r as int == spec_days_in_month(year as int, month as int),
{
    if month == 2 {
        if (year % 4 == 0 && year % 100 != 0) || year % 400 == 0 {
            29
        } else {
            28
        }
    } else if month == 4 || month == 6 || month == 9 || month == 11 {
        30
    } else {
        31
    }
}

/// Parses the fixed "Y-m-d H:M" format; any deviation — wrong separators,
/// missing components, out-of-range values — is a parse error.
pub fn parse_datetime(s: &str) -> (r: Result<DateTime, Error>)
    ensures
        match r {
            Ok(dt) => spec_parse_datetime(s@) == Some(dt),
            Err(e) => spec_parse_datetime(s@) is None && e == Error::Parse(
                ParseError::InvalidDatetime,
            ),
        },
{
    let err: Error = Error::Parse(ParseError::InvalidDatetime);
    if s.unicode_len() != 16 {
        return Err(err);
    }
    if !(s.get_char(4) == '-' && s.get_char(7) == '-' && s.get_char(10) == ' ' && s.get_char(13)
        == ':') {
        return Err(err);
    }
    let (d0, d1, d2, d3) = match (
        digit_value(s.get_char(0)),
        digit_value(s.get_char(1)),
        digit_value(s.get_char(2)),
        digit_value(s.get_char(3)),
    ) {
        (Some(a), Some(b), Some(c), Some(d)) => (a, b, c, d),
        _ => { return Err(err) },
    };
    let (m0, m1) = match (digit_value(s.get_char(5)), digit_value(s.get_char(6))) {
        (Some(a), Some(b)) => (a, b),
        _ => { return Err(err) },
    };
    let (a0, a1) = match (digit_value(s.get_char(8)), digit_value(s.get_char(9))) {
        (Some(a), Some(b)) => (a, b),
        _ => { return Err(err) },
    };
    let (h0, h1) = match (digit_value(s.get_char(11)), digit_value(s.get_char(12))) {
        (Some(a), Some(b)) => (a, b),
        _ => { return Err(err) },
    };
    let (n0, n1) = match (digit_value(s.get_char(14)), digit_value(s.get_char(15))) {
        (Some(a), Some(b)) => (a, b),
        _ => { return Err(err) },
    };
    let year: u16 = d0 as u16 * 1000 + d1 as u16 * 100 + d2 as u16 * 10 + d3 as u16;
    let month: u8 = m0 * 10 + m1;
    let day: u8 = a0 * 10 + a1;
    let hour: u8 = h0 * 10 + h1;
    let minute: u8 = n0 * 10 + n1;
    let dt = DateTime { year, month, day, hour, minute };
    if month < 1 || month > 12 {
        return Err(err);
    }
    if day < 1 || day > days_in_month(year, month) {
        return Err(err);
    }
    if hour > 23 || minute > 59 {
        return Err(err);
    }
    Ok(dt)
}

fn digit_str(d: u8) -> (r: &'static str)
    ensures
        r@ =~= seq![spec_digit_char(d as int)],
{
    proof {
        reveal_strlit("0");
        reveal_strlit("1");
        reveal_strlit("2");
        reveal_strlit("3");
        reveal_strlit("4");
        reveal_strlit("5");
        reveal_strlit("6");
        reveal_strlit("7");
        reveal_strlit("8");
        reveal_strlit("9");
    }
    match d {
        0 => "0",
        1 => "1",
        2 => "2",
        3 => "3",
        4 => "4",
        5 => "5",
        6 => "6",
        7 => "7",
        8 => "8",
        _ => "9",
    }
}

fn push_digit(out: &mut String, d: u8)
    ensures
        final(out)@ == old(out)@ + seq![spec_digit_char(d as int)],
{
    out.append(digit_str(d));
}

/// Writes a timestamp in the fixed "Y-m-d H:M" format, the exact literal the
/// wire format carries for a scheduled send date.
pub fn format_datetime(dt: DateTime) -> (r: String)
    ensures
        r@ == spec_format_datetime(dt),
{
    let mut out = String::new();
    push_digit(&mut out, (dt.year / 1000) as u8);
    push_digit(&mut out, ((dt.year / 100) % 10) as u8);
    push_digit(&mut out, ((dt.year / 10) % 10) as u8);
    push_digit(&mut out, (dt.year % 10) as u8);
    out.append("-");
    push_digit(&mut out, dt.month / 10);
    push_digit(&mut out, dt.month % 10);
    out.append("-");
    push_digit(&mut out, dt.day / 10);
    push_digit(&mut out, dt.day % 10);
    out.append(" ");
    push_digit(&mut out, dt.hour / 10);
    push_digit(&mut out, dt.hour % 10);
    out.append(":");
    push_digit(&mut out, dt.minute / 10);
    push_digit(&mut out, dt.minute % 10);
    proof {
        reveal_strlit("-");
        reveal_strlit(" ");
        reveal_strlit(":");
    }
    assert(out@ =~= spec_format_datetime(dt));
    out
}

proof fn lemma_digit_char_val(d: int)
    requires
        0 <= d <= 9,
    ensures
        spec_is_digit(spec_digit_char(d)),
        spec_digit_val(spec_digit_char(d)) == d,
{
}

proof fn lemma_digit_val_char(c: char)
    requires
        spec_is_digit(c),
    ensures
        spec_digit_char(spec_digit_val(c)) == c,
{
    let u = c as u32;
    vstd::utf8::char_u32_cast(c, u);
    vstd::utf8::char_u32_cast(spec_digit_char(spec_digit_val(c)), u);
}

/// Law: rendering a timestamp with the fixed format and parsing the result
/// reproduces the original year, month, day, hour and minute exactly.
pub proof fn lemma_datetime_roundtrip(dt: DateTime)
    requires
        dt.wf(),
    ensures
        spec_parse_datetime(spec_format_datetime(dt)) == Some(dt),
{
    let s = spec_format_datetime(dt);
    let y = dt.year as int;
    let mo = dt.month as int;
    let d = dt.day as int;
    let h = dt.hour as int;
    let mi = dt.minute as int;
    lemma_digit_char_val(y / 1000);
    lemma_digit_char_val((y / 100) % 10);
    lemma_digit_char_val((y / 10) % 10);
    lemma_digit_char_val(y % 10);
    lemma_digit_char_val(mo / 10);
    lemma_digit_char_val(mo % 10);
    lemma_digit_char_val(d / 10);
    lemma_digit_char_val(d % 10);
    lemma_digit_char_val(h / 10);
    lemma_digit_char_val(h % 10);
    lemma_digit_char_val(mi / 10);
    lemma_digit_char_val(mi % 10);
    assert((y / 1000) * 1000 + ((y / 100) % 10) * 100 + ((y / 10) % 10) * 10 + y % 10 == y)
        by (nonlinear_arith)
        requires
            0 <= y <= 9999,
    ;
    assert((mo / 10) * 10 + mo % 10 == mo) by (nonlinear_arith)
        requires
            0 <= mo < 100,
    ;
    assert((d / 10) * 10 + d % 10 == d) by (nonlinear_arith)
        requires
            0 <= d < 100,
    ;
    assert((h / 10) * 10 + h % 10 == h) by (nonlinear_arith)
        requires
            0 <= h < 100,
    ;
    assert((mi / 10) * 10 + mi % 10 == mi) by (nonlinear_arith)
        requires
            0 <= mi < 100,
    ;
    assert(spec_datetime_of(s) == dt);
}

/// Law: a string the fixed format accepts re-serializes to the identical
/// literal string, character for character.
pub proof fn lemma_parse_format_roundtrip(s: Seq<char>)
    requires
        spec_parse_datetime(s) is Some,
    ensures
        spec_format_datetime(spec_parse_datetime(s)->0) == s,
{
    let dt = spec_datetime_of(s);
    let y = dt.year as int;
    let d0 = spec_digit_val(s[0]);
    let d1 = spec_digit_val(s[1]);
    let d2 = spec_digit_val(s[2]);
    let d3 = spec_digit_val(s[3]);
    assert(y == d0 * 1000 + d1 * 100 + d2 * 10 + d3);
    assert(y / 1000 == d0 && (y / 100) % 10 == d1 && (y / 10) % 10 == d2 && y % 10 == d3)
        by (nonlinear_arith)
        requires
            y == d0 * 1000 + d1 * 100 + d2 * 10 + d3,
            0 <= d0 <= 9,
            0 <= d1 <= 9,
            0 <= d2 <= 9,
            0 <= d3 <= 9,
    ;
    lemma_two_digit_decompose(dt.month as int, spec_digit_val(s[5]), spec_digit_val(s[6]));
    lemma_two_digit_decompose(dt.day as int, spec_digit_val(s[8]), spec_digit_val(s[9]));
    lemma_two_digit_decompose(dt.hour as int, spec_digit_val(s[11]), spec_digit_val(s[12]));
    lemma_two_digit_decompose(dt.minute as int, spec_digit_val(s[14]), spec_digit_val(s[15]));
    lemma_digit_val_char(s[0]);
    lemma_digit_val_char(s[1]);
    lemma_digit_val_char(s[2]);
    lemma_digit_val_char(s[3]);
    lemma_digit_val_char(s[5]);
    lemma_digit_val_char(s[6]);
    lemma_digit_val_char(s[8]);
    lemma_digit_val_char(s[9]);
    lemma_digit_val_char(s[11]);
    lemma_digit_val_char(s[12]);
    lemma_digit_val_char(s[14]);
    lemma_digit_val_char(s[15]);
    assert(spec_format_datetime(dt) =~= s);
}

proof fn lemma_two_digit_decompose(n: int, hi: int, lo: int)
    requires
        n == hi * 10 + lo,
        0 <= hi <= 9,
        0 <= lo <= 9,
    ensures
        n / 10 == hi,
        n % 10 == lo,
{
    assert(n / 10 == hi && n % 10 == lo) by (nonlinear_arith)
        requires
            n == hi * 10 + lo,
            0 <= hi <= 9,
            0 <= lo <= 9,
    ;
}

} // verus!
