//! Calendar timestamps in the source's fixed text format.
//!
//! Source records carry timestamps written as `YYYY-MM-DDTHH:MM:SS`,
//! optionally followed by `.` and exactly six fractional-second digits.
//! A timestamp is held as plain calendar fields; [`parse_timestamp`] accepts
//! exactly the well-formed texts of that shape that name a real calendar
//! date and time, and [`format_timestamp`] writes the fields back in the
//! same shape.

use crate::text::chars_to_string;
use vstd::arithmetic::div_mod::lemma_fundamental_div_mod;
use vstd::prelude::*;
use vstd::string::StrSliceExecFns;

verus! {

/// A calendar timestamp, as plain fields.
#[derive(PartialEq, Eq, Structural, Clone, Copy, Debug)]
pub struct Timestamp {
    pub year: u32,
    pub month: u32,
    pub day: u32,
    pub hour: u32,
    pub minute: u32,
    pub second: u32,
    /// Fractional seconds, in microseconds.
    pub micros: u32,
}

/// Years divisible by four are leap years, except century years not
/// divisible by four hundred.
pub open spec fn is_leap_year(year: int) -> bool {
    year % 4 == 0 && (year % 100 != 0 || year % 400 == 0)
}

/// How many days the given month of the given year has.
pub open spec fn days_in_month(year: int, month: int) -> int {
    if month == 2 {
        if is_leap_year(year) {
            29
        } else {
            28
        }
    } else if month == 4 || month == 6 || month == 9 || month == 11 {
        30
    } else {
        31
    }
}

impl Timestamp {
    /// The fields name a real calendar date and time that the four-digit
    /// text form can hold.
    pub open spec fn wf(&self) -> bool {
        &&& self.year <= 9999
        &&& 1 <= self.month <= 12
        &&& 1 <= self.day <= days_in_month(self.year as int, self.month as int)
        &&& self.hour < 24
        &&& self.minute < 60
        &&& self.second < 60
        &&& self.micros < 1000000
    }
}

/// Whether the character is a decimal digit.
pub open spec fn is_digit(c: char) -> bool {
    48 <= c as int <= 57
}

/// The numeric value of a decimal digit character.
pub open spec fn digit_val(c: char) -> int {
    c as int - 48
}

/// Ten to the `n`-th power.
pub open spec fn pow10(n: int) -> int
    decreases n,
{
    if n <= 0 {
        1
    } else {
        10 * pow10(n - 1)
    }
}

proof fn lemma_pow10_monotone(a: int, b: int)
    requires
        0 <= a <= b,
    ensures
        1 <= pow10(a) <= pow10(b),
    decreases b,
{
    if b > 0 {
        if a == b {
            lemma_pow10_monotone(0, b - 1);
        } else {
            lemma_pow10_monotone(a, b - 1);
        }
    }
}

/// The value of the `count` digits of `s` starting at `start`, read as one
/// decimal number.
pub open spec fn digits_val(s: Seq<char>, start: int, count: int) -> int
    decreases count,
{
    if count <= 0 {
        0
    } else {
        digits_val(s, start, count - 1) * 10 + digit_val(s[start + count - 1])
    }
}

/// Whether position `i` of a timestamp text of length `len` must hold a
/// digit.
pub open spec fn digit_position(i: int, len: int) -> bool {
    ||| 0 <= i < 4
    ||| i == 5 || i == 6
    ||| i == 8 || i == 9
    ||| i == 11 || i == 12
    ||| i == 14 || i == 15
    ||| i == 17 || i == 18
    ||| (len == 26 && 20 <= i < 26)
}

/// The text has the shape `YYYY-MM-DDTHH:MM:SS`, optionally followed by a
/// dot and exactly six digits.
pub open spec fn timestamp_format(s: Seq<char>) -> bool {
    &&& (s.len() == 19 || s.len() == 26)
    &&& s[4] == '-'
    &&& s[7] == '-'
    &&& s[10] == 'T'
    &&& s[13] == ':'
    &&& s[16] == ':'
    &&& (s.len() == 26 ==> s[19] == '.')
    &&& forall|i: int| digit_position(i, s.len() as int) ==> is_digit(#[trigger] s[i])
}

/// The fields written in a text of timestamp shape.
pub open spec fn spec_timestamp(s: Seq<char>) -> Timestamp {
    Timestamp {
        year: digits_val(s, 0, 4) as u32,
        month: digits_val(s, 5, 2) as u32,
        day: digits_val(s, 8, 2) as u32,
        hour: digits_val(s, 11, 2) as u32,
        minute: digits_val(s, 14, 2) as u32,
        second: digits_val(s, 17, 2) as u32,
        micros: if s.len() == 26 {
            digits_val(s, 20, 6) as u32
        } else {
            0
        },
    }
}

/// Read `count` digits of `s` starting at `start` as one decimal number;
/// `None` when any of those characters is not a digit.
fn read_digits(s: &str, start: usize, count: usize) -> (r: Option<u32>)
    requires
        start + count <= s@.len(),
        start + count <= usize::MAX,
        count <= 7,
    ensures
        r is Some <==> (forall|i: int|
            start <= i < start + count ==> is_digit(#[trigger] s@[i])),
        r is Some ==> r->0 == digits_val(s@, start as int, count as int) && r->0 < pow10(
            count as int,
        ),
{
    proof {
        assert(pow10(0) == 1);
        assert(pow10(1) == 10);
        assert(pow10(2) == 100);
        assert(pow10(3) == 1000);
        assert(pow10(4) == 10000);
        assert(pow10(5) == 100000);
        assert(pow10(6) == 1000000);
        assert(pow10(7) == 10000000);
    }
    let mut value: u32 = 0;
    let mut i: usize = 0;
    while i < count
        invariant
            start + count <= s@.len(),
            start + count <= usize::MAX,
            count <= 7,
            i <= count,
            forall|j: int| start <= j < start + i ==> is_digit(#[trigger] s@[j]),
            value == digits_val(s@, start as int, i as int),
            value < pow10(i as int),
            pow10(7) == 10000000,
        decreases count - i,
    {
        let c = s.get_char(start + i);
        let code = c as u32;
        if code < 48 || code > 57 {
            proof {
                assert(!is_digit(s@[start + i]));
            }
            return None;
        }
        proof {
            lemma_pow10_monotone(i + 1, 7);
            assert(pow10(i + 1) == 10 * pow10(i as int));
        }
        value = value * 10 + (code - 48);
        i = i + 1;
    }
    proof {
        lemma_pow10_monotone(count as int, 7);
    }
    Some(value)
}

/// Parse a timestamp text. The result is the fields written in the text,
/// and is `Some` exactly when the text has the timestamp shape and names a
/// real calendar date and time.
pub fn parse_timestamp(s: &str) -> (r: Option<Timestamp>)
    ensures
        r is Some <==> timestamp_format(s@) && spec_timestamp(s@).wf(),
        r is Some ==> r->0 == spec_timestamp(s@),
{
    let n = s.unicode_len();
    if n != 19 && n != 26 {
        return None;
    }
    if s.get_char(4) != '-' || s.get_char(7) != '-' || s.get_char(10) != 'T' || s.get_char(13)
        != ':' || s.get_char(16) != ':' {
        return None;
    }
    if n == 26 && s.get_char(19) != '.' {
        return None;
    }
    let year = read_digits(s, 0, 4);
    let month = read_digits(s, 5, 2);
    let day = read_digits(s, 8, 2);
    let hour = read_digits(s, 11, 2);
    let minute = read_digits(s, 14, 2);
    let second = read_digits(s, 17, 2);
    let micros = if n == 26 {
        read_digits(s, 20, 6)
    } else {
        Some(0)
    };
    match (year, month, day, hour, minute, second, micros) {
        (
            Some(year),
            Some(month),
            Some(day),
            Some(hour),
            Some(minute),
            Some(second),
            Some(micros),
        ) => {
            let t = Timestamp { year, month, day, hour, minute, second, micros };
            proof {
                assert(pow10(0) == 1);
                assert(pow10(1) == 10);
                assert(pow10(2) == 100);
                assert(pow10(3) == 1000);
                assert(pow10(4) == 10000);
                assert(pow10(5) == 100000);
                assert(pow10(6) == 1000000);
                assert(timestamp_format(s@));
                assert(t == spec_timestamp(s@));
            }
            if month < 1 || month > 12 {
                return None;
            }
            if day < 1 || day > days_in_month_count(year, month) {
                return None;
            }
            if hour >= 24 || minute >= 60 || second >= 60 {
                return None;
            }
            Some(t)
        },
        _ => None,
    }
}

/// How many days the given month of the given year has.
pub fn days_in_month_count(year: u32, month: u32) -> (d: u32)
    ensures
        d == days_in_month(year as int, month as int),
{
    if month == 2 {
        if year % 4 == 0 && (year % 100 != 0 || year % 400 == 0) {
            29
        } else {
            28
        }
    } else if month == 4 || month == 6 || month == 9 || month == 11 {
        30
    } else {
        31
    }
}

/// The digits of `n`, zero-padded on the left to exactly `width` characters
/// (the low `width` digits of `n`).
pub open spec fn pad_digits(n: int, width: int) -> Seq<char>
    decreases width,
{
    if width <= 0 {
        Seq::empty()
    } else {
        pad_digits(n / 10, width - 1) + seq![crate::json::hex_digit(n % 10)]
    }
}

/// Append the low `width` decimal digits of `n`, zero-padded.
pub fn push_padded(out: &mut Vec<char>, n: u32, width: usize)
    ensures
        final(out)@ == old(out)@ + pad_digits(n as int, width as int),
    decreases width,
{
    if width == 0 {
        proof {
            assert(out@ =~= old(out)@ + pad_digits(n as int, 0));
        }
        return ;
    }
    push_padded(out, n / 10, width - 1);
    let d = n % 10;
    out.push(crate::json::hex_digit_char(d));
}

/// The text form of a timestamp: `YYYY-MM-DDTHH:MM:SS.` and six
/// fractional-second digits.
pub open spec fn timestamp_chars(t: Timestamp) -> Seq<char> {
    pad_digits(t.year as int, 4) + seq!['-'] + pad_digits(t.month as int, 2) + seq!['-']
        + pad_digits(t.day as int, 2) + seq!['T'] + pad_digits(t.hour as int, 2) + seq![':']
        + pad_digits(t.minute as int, 2) + seq![':'] + pad_digits(t.second as int, 2) + seq!['.']
        + pad_digits(t.micros as int, 6)
}

/// Write the timestamp in its text form.
pub fn format_timestamp(t: &Timestamp) -> (r: String)
    ensures
        r@ == timestamp_chars(*t),
{
    let mut out: Vec<char> = Vec::new();
    push_padded(&mut out, t.year, 4);
    out.push('-');
    push_padded(&mut out, t.month, 2);
    out.push('-');
    push_padded(&mut out, t.day, 2);
    out.push('T');
    push_padded(&mut out, t.hour, 2);
    out.push(':');
    push_padded(&mut out, t.minute, 2);
    out.push(':');
    push_padded(&mut out, t.second, 2);
    out.push('.');
    push_padded(&mut out, t.micros, 6);
    proof {
        assert(out@ =~= timestamp_chars(*t));
    }
    chars_to_string(&out)
}


/// The padded digits of a number that fits are exactly `width` decimal
/// digits.
proof fn lemma_pad_digits_props(n: int, width: int)
    requires
        0 <= n < pow10(width),
        width >= 0,
    ensures
        pad_digits(n, width).len() == width,
        forall|i: int| 0 <= i < width ==> is_digit(#[trigger] pad_digits(n, width)[i]),
    decreases width,
{
    if width > 0 {
        assert(pow10(width) == 10 * pow10(width - 1));
        lemma_pow10_monotone(0, width - 1);
        assert(n / 10 < pow10(width - 1)) by (nonlinear_arith)
            requires
                0 <= n < 10 * pow10(width - 1),
                pow10(width - 1) >= 1,
        ;
        lemma_pad_digits_props(n / 10, width - 1);
        let rest = pad_digits(n / 10, width - 1);
        assert(is_digit(crate::json::hex_digit(n % 10)));
        assert forall|i: int| 0 <= i < width implies is_digit(
            #[trigger] pad_digits(n, width)[i],
        ) by {
            if i < width - 1 {
                assert(pad_digits(n, width)[i] == rest[i]);
            }
        }
    }
}

/// Reading the padded digits of a number that fits yields the number back.
proof fn lemma_digits_val_of_pad(s: Seq<char>, start: int, n: int, width: int)
    requires
        width >= 0,
        0 <= n < pow10(width),
        0 <= start,
        start + width <= s.len(),
        s.subrange(start, start + width) == pad_digits(n, width),
    ensures
        digits_val(s, start, width) == n,
    decreases width,
{
    lemma_pad_digits_props(n, width);
    if width == 0 {
        assert(n == 0);
    } else {
        assert(pow10(width) == 10 * pow10(width - 1));
        lemma_pow10_monotone(0, width - 1);
        assert(n / 10 < pow10(width - 1)) by (nonlinear_arith)
            requires
                0 <= n < 10 * pow10(width - 1),
                pow10(width - 1) >= 1,
        ;
        lemma_pad_digits_props(n / 10, width - 1);
        assert(s.subrange(start, start + width - 1) =~= pad_digits(n / 10, width - 1));
        lemma_digits_val_of_pad(s, start, n / 10, width - 1);
        assert(s[start + width - 1] == s.subrange(start, start + width)[width - 1]);
        assert(s[start + width - 1] == crate::json::hex_digit(n % 10));
        assert(digit_val(crate::json::hex_digit(n % 10)) == n % 10);
        lemma_fundamental_div_mod(n, 10);
    }
}

/// Writing a well-formed timestamp and reading the text back yields the
/// same fields: the text form is faithful, and `parse_timestamp` accepts
/// exactly what `format_timestamp` writes.
pub proof fn lemma_format_parse_round_trip(t: Timestamp)
    requires
        t.wf(),
    ensures
        timestamp_format(timestamp_chars(t)),
        spec_timestamp(timestamp_chars(t)) == t,
{
    let s = timestamp_chars(t);
    assert(pow10(0) == 1);
    assert(pow10(1) == 10);
    assert(pow10(2) == 100);
    assert(pow10(3) == 1000);
    assert(pow10(4) == 10000);
    assert(pow10(5) == 100000);
    assert(pow10(6) == 1000000);
    lemma_pad_digits_props(t.year as int, 4);
    lemma_pad_digits_props(t.month as int, 2);
    lemma_pad_digits_props(t.day as int, 2);
    lemma_pad_digits_props(t.hour as int, 2);
    lemma_pad_digits_props(t.minute as int, 2);
    lemma_pad_digits_props(t.second as int, 2);
    lemma_pad_digits_props(t.micros as int, 6);
    assert(s.len() == 26);
    assert(s.subrange(0, 4) =~= pad_digits(t.year as int, 4));
    assert(s.subrange(5, 7) =~= pad_digits(t.month as int, 2));
    assert(s.subrange(8, 10) =~= pad_digits(t.day as int, 2));
    assert(s.subrange(11, 13) =~= pad_digits(t.hour as int, 2));
    assert(s.subrange(14, 16) =~= pad_digits(t.minute as int, 2));
    assert(s.subrange(17, 19) =~= pad_digits(t.second as int, 2));
    assert(s.subrange(20, 26) =~= pad_digits(t.micros as int, 6));
    lemma_digits_val_of_pad(s, 0, t.year as int, 4);
    lemma_digits_val_of_pad(s, 5, t.month as int, 2);
    lemma_digits_val_of_pad(s, 8, t.day as int, 2);
    lemma_digits_val_of_pad(s, 11, t.hour as int, 2);
    lemma_digits_val_of_pad(s, 14, t.minute as int, 2);
    lemma_digits_val_of_pad(s, 17, t.second as int, 2);
    lemma_digits_val_of_pad(s, 20, t.micros as int, 6);
    assert forall|i: int| digit_position(i, 26) implies is_digit(#[trigger] s[i]) by {
        if 0 <= i < 4 {
            assert(s[i] == s.subrange(0, 4)[i]);
        } else if i == 5 || i == 6 {
            assert(s[i] == s.subrange(5, 7)[i - 5]);
        } else if i == 8 || i == 9 {
            assert(s[i] == s.subrange(8, 10)[i - 8]);
        } else if i == 11 || i == 12 {
            assert(s[i] == s.subrange(11, 13)[i - 11]);
        } else if i == 14 || i == 15 {
            assert(s[i] == s.subrange(14, 16)[i - 14]);
        } else if i == 17 || i == 18 {
            assert(s[i] == s.subrange(17, 19)[i - 17]);
        } else {
            assert(s[i] == s.subrange(20, 26)[i - 20]);
        }
    }
}

} // verus!
