//! Multi-format date and time decoding.
//!
//! The wire uses several textual formats for the same instant. Decoding
//! tries a fixed, ordered list of patterns and takes the first match; the
//! order is load-bearing, since some patterns overlap others. Every
//! numeric field is fixed-width and zero-padded, as the wire emits them;
//! single-digit spellings are intentionally outside the accepted shapes.
//! Serializing always emits one fixed canonical pattern, so round trips
//! are value-identical rather than byte-identical.

use vstd::arithmetic::div_mod::{lemma_div_denominator, lemma_fundamental_div_mod};
use vstd::prelude::*;

use crate::text::{char_of_digit, digit_char, digit_of, digit_val, is_dec_digit, is_dec_digit_char, push_char};

verus! {

/// The canonical internal instant: equal values for any accepted input
/// encoding of the same instant.
#[derive(Debug, Clone, Copy, PartialEq, Eq, Structural)]
pub struct CanonicalDateTime {
    pub year: u16,
    pub month: u8,
    pub day: u8,
    pub hour: u8,
    pub minute: u8,
    pub second: u8,
}

/// A canonical calendar date without a time of day.
#[derive(Debug, Clone, Copy, PartialEq, Eq, Structural)]
pub struct CanonicalDate {
    pub year: u16,
    pub month: u8,
    pub day: u8,
}

/// No pattern in the ordered list matched the input.
#[derive(Debug, Clone, PartialEq, Eq)]
pub struct DateDecodeError {
    pub raw: String,
}

pub open spec fn is_leap_year(y: int) -> bool {
    y % 4 == 0 && (y % 100 != 0 || y % 400 == 0)
}

pub open spec fn days_in_month(y: int, m: int) -> int {
    if m == 1 || m == 3 || m == 5 || m == 7 || m == 8 || m == 10 || m == 12 {
        31
    } else if m == 4 || m == 6 || m == 9 || m == 11 {
        30
    } else if m == 2 {
        if is_leap_year(y) {
            29
        } else {
            28
        }
    } else {
        0
    }
}

/// A calendar-valid combination of parts, with a four-digit year.
pub open spec fn valid_parts(y: int, mo: int, d: int, h: int, mi: int, s: int) -> bool {
    &&& 0 <= y <= 9999
    &&& 1 <= mo <= 12
    &&& 1 <= d <= days_in_month(y, mo)
    &&& 0 <= h <= 23
    &&& 0 <= mi <= 59
    &&& 0 <= s <= 59
}

impl CanonicalDateTime {
    /// Calendar validity of the stored parts.
    pub open spec fn wf(&self) -> bool {
        valid_parts(
            self.year as int,
            self.month as int,
            self.day as int,
            self.hour as int,
            self.minute as int,
            self.second as int,
        )
    }
}

impl CanonicalDate {
    pub open spec fn wf(&self) -> bool {
        valid_parts(self.year as int, self.month as int, self.day as int, 0, 0, 0)
    }
}

fn is_leap_year_exec(y: u16) -> (r: bool)
    ensures
        r == is_leap_year(y as int),
{
    y % 4 == 0 && (y % 100 != 0 || y % 400 == 0)
}

fn days_in_month_exec(y: u16, m: u8) -> (r: u8)
    ensures
        r as int == days_in_month(y as int, m as int),
{
    match m {
        1 | 3 | 5 | 7 | 8 | 10 | 12 => 31,
        4 | 6 | 9 | 11 => 30,
        2 => if is_leap_year_exec(y) {
            29
        } else {
            28
        },
        _ => 0,
    }
}

fn valid_parts_exec(y: u16, mo: u8, d: u8, h: u8, mi: u8, s: u8) -> (r: bool)
    ensures
        r == valid_parts(y as int, mo as int, d as int, h as int, mi as int, s as int),
{
    y <= 9999 && 1 <= mo && mo <= 12 && 1 <= d && d <= days_in_month_exec(y, mo) && h <= 23
        && mi <= 59 && s <= 59
}

/// Makes a calendar-checked instant from its parts.
pub fn make_date_time(y: u16, mo: u8, d: u8, h: u8, mi: u8, s: u8) -> (r: Option<
    CanonicalDateTime,
>)
    ensures
        r matches Some(dt) ==> dt == (CanonicalDateTime {
            year: y,
            month: mo,
            day: d,
            hour: h,
            minute: mi,
            second: s,
        }) && dt.wf(),
        r is Some <==> valid_parts(y as int, mo as int, d as int, h as int, mi as int, s as int),
{
    if valid_parts_exec(y, mo, d, h, mi, s) {
        Some(CanonicalDateTime { year: y, month: mo, day: d, hour: h, minute: mi, second: s })
    } else {
        None
    }
}

/// Makes a calendar-checked date from its parts.
pub fn make_date(y: u16, mo: u8, d: u8) -> (r: Option<CanonicalDate>)
    ensures
        r matches Some(dt) ==> dt == (CanonicalDate { year: y, month: mo, day: d }) && dt.wf(),
        r is Some <==> valid_parts(y as int, mo as int, d as int, 0, 0, 0),
{
    if valid_parts_exec(y, mo, d, 0, 0, 0) {
        Some(CanonicalDate { year: y, month: mo, day: d })
    } else {
        None
    }
}

// ---------------------------------------------------------------------------
// Reading digit groups
// ---------------------------------------------------------------------------

/// Two decimal digits stand at `i`.
pub open spec fn d2(s: Seq<char>, i: int) -> bool {
    is_dec_digit(s[i]) && is_dec_digit(s[i + 1])
}

pub open spec fn v2(s: Seq<char>, i: int) -> int {
    10 * digit_val(s[i]) + digit_val(s[i + 1])
}

/// Four decimal digits stand at `i`.
pub open spec fn d4(s: Seq<char>, i: int) -> bool {
    d2(s, i) && d2(s, i + 2)
}

pub open spec fn v4(s: Seq<char>, i: int) -> int {
    1000 * digit_val(s[i]) + 100 * digit_val(s[i + 1]) + 10 * digit_val(s[i + 2]) + digit_val(
        s[i + 3],
    )
}

fn read2(s: &str, i: usize) -> (r: Option<u8>)
    requires
        i + 2 <= s@.len() <= usize::MAX,
    ensures
        r matches Some(v) ==> d2(s@, i as int) && v == v2(s@, i as int),
        r is Some <==> d2(s@, i as int),
{
    let c0 = s.get_char(i);
    let c1 = s.get_char(i + 1);
    if is_dec_digit_char(c0) && is_dec_digit_char(c1) {
        Some(10 * digit_of(c0) + digit_of(c1))
    } else {
        None
    }
}

fn read4(s: &str, i: usize) -> (r: Option<u16>)
    requires
        i + 4 <= s@.len() <= usize::MAX,
    ensures
        r matches Some(v) ==> d4(s@, i as int) && v == v4(s@, i as int),
        r is Some <==> d4(s@, i as int),
{
    let c0 = s.get_char(i);
    let c1 = s.get_char(i + 1);
    let c2 = s.get_char(i + 2);
    let c3 = s.get_char(i + 3);
    if is_dec_digit_char(c0) && is_dec_digit_char(c1) && is_dec_digit_char(c2)
        && is_dec_digit_char(c3) {
        Some(
            1000 * (digit_of(c0) as u16) + 100 * (digit_of(c1) as u16) + 10 * (digit_of(c2) as u16)
                + (digit_of(c3) as u16),
        )
    } else {
        None
    }
}

// ---------------------------------------------------------------------------
// The five input patterns, in priority order
// ---------------------------------------------------------------------------

/// Pattern 1: year-month-day with time ("2023-10-11 12:30:45"); also the
/// single canonical output pattern.
pub open spec fn shape_f1(s: Seq<char>) -> bool {
    &&& s.len() == 19
    &&& d4(s, 0)
    &&& s[4] == '-'
    &&& d2(s, 5)
    &&& s[7] == '-'
    &&& d2(s, 8)
    &&& s[10] == ' '
    &&& d2(s, 11)
    &&& s[13] == ':'
    &&& d2(s, 14)
    &&& s[16] == ':'
    &&& d2(s, 17)
}

pub open spec fn spec_parse_f1(s: Seq<char>) -> Option<CanonicalDateTime> {
    if shape_f1(s) && valid_parts(v4(s, 0), v2(s, 5), v2(s, 8), v2(s, 11), v2(s, 14), v2(s, 17)) {
        Some(
            CanonicalDateTime {
                year: v4(s, 0) as u16,
                month: v2(s, 5) as u8,
                day: v2(s, 8) as u8,
                hour: v2(s, 11) as u8,
                minute: v2(s, 14) as u8,
                second: v2(s, 17) as u8,
            },
        )
    } else {
        None
    }
}

/// Pattern 2: day-month-year with time, dot separators
/// ("11.10.2023 12:30:45").
pub open spec fn shape_f2(s: Seq<char>) -> bool {
    &&& s.len() == 19
    &&& d2(s, 0)
    &&& s[2] == '.'
    &&& d2(s, 3)
    &&& s[5] == '.'
    &&& d4(s, 6)
    &&& s[10] == ' '
    &&& d2(s, 11)
    &&& s[13] == ':'
    &&& d2(s, 14)
    &&& s[16] == ':'
    &&& d2(s, 17)
}

pub open spec fn spec_parse_f2(s: Seq<char>) -> Option<CanonicalDateTime> {
    if shape_f2(s) && valid_parts(v4(s, 6), v2(s, 3), v2(s, 0), v2(s, 11), v2(s, 14), v2(s, 17)) {
        Some(
            CanonicalDateTime {
                year: v4(s, 6) as u16,
                month: v2(s, 3) as u8,
                day: v2(s, 0) as u8,
                hour: v2(s, 11) as u8,
                minute: v2(s, 14) as u8,
                second: v2(s, 17) as u8,
            },
        )
    } else {
        None
    }
}

/// Pattern 3: day-month-year with time, dash separators
/// ("11-10-2023 12:30:45").
pub open spec fn shape_f3(s: Seq<char>) -> bool {
    &&& s.len() == 19
    &&& d2(s, 0)
    &&& s[2] == '-'
    &&& d2(s, 3)
    &&& s[5] == '-'
    &&& d4(s, 6)
    &&& s[10] == ' '
    &&& d2(s, 11)
    &&& s[13] == ':'
    &&& d2(s, 14)
    &&& s[16] == ':'
    &&& d2(s, 17)
}

pub open spec fn spec_parse_f3(s: Seq<char>) -> Option<CanonicalDateTime> {
    if shape_f3(s) && valid_parts(v4(s, 6), v2(s, 3), v2(s, 0), v2(s, 11), v2(s, 14), v2(s, 17)) {
        Some(
            CanonicalDateTime {
                year: v4(s, 6) as u16,
                month: v2(s, 3) as u8,
                day: v2(s, 0) as u8,
                hour: v2(s, 11) as u8,
                minute: v2(s, 14) as u8,
                second: v2(s, 17) as u8,
            },
        )
    } else {
        None
    }
}

/// Pattern 4: time then day-month-year ("12:30 11.10.2023"); no seconds,
/// which decode as zero.
pub open spec fn shape_f4(s: Seq<char>) -> bool {
    &&& s.len() == 16
    &&& d2(s, 0)
    &&& s[2] == ':'
    &&& d2(s, 3)
    &&& s[5] == ' '
    &&& d2(s, 6)
    &&& s[8] == '.'
    &&& d2(s, 9)
    &&& s[11] == '.'
    &&& d4(s, 12)
}

pub open spec fn spec_parse_f4(s: Seq<char>) -> Option<CanonicalDateTime> {
    if shape_f4(s) && valid_parts(v4(s, 12), v2(s, 9), v2(s, 6), v2(s, 0), v2(s, 3), 0) {
        Some(
            CanonicalDateTime {
                year: v4(s, 12) as u16,
                month: v2(s, 9) as u8,
                day: v2(s, 6) as u8,
                hour: v2(s, 0) as u8,
                minute: v2(s, 3) as u8,
                second: 0,
            },
        )
    } else {
        None
    }
}

/// Pattern 5: date only ("2023-10-11"); the time of day decodes as zero.
pub open spec fn shape_f5(s: Seq<char>) -> bool {
    &&& s.len() == 10
    &&& d4(s, 0)
    &&& s[4] == '-'
    &&& d2(s, 5)
    &&& s[7] == '-'
    &&& d2(s, 8)
}

pub open spec fn spec_parse_f5(s: Seq<char>) -> Option<CanonicalDateTime> {
    if shape_f5(s) && valid_parts(v4(s, 0), v2(s, 5), v2(s, 8), 0, 0, 0) {
        Some(
            CanonicalDateTime {
                year: v4(s, 0) as u16,
                month: v2(s, 5) as u8,
                day: v2(s, 8) as u8,
                hour: 0,
                minute: 0,
                second: 0,
            },
        )
    } else {
        None
    }
}

/// The ordered list with first match winning: patterns 1 to 5.
pub open spec fn spec_parse_date_time(s: Seq<char>) -> Option<CanonicalDateTime> {
    if spec_parse_f1(s) is Some {
        spec_parse_f1(s)
    } else if spec_parse_f2(s) is Some {
        spec_parse_f2(s)
    } else if spec_parse_f3(s) is Some {
        spec_parse_f3(s)
    } else if spec_parse_f4(s) is Some {
        spec_parse_f4(s)
    } else {
        spec_parse_f5(s)
    }
}

fn parse_f1(s: &str) -> (r: Option<CanonicalDateTime>)
    ensures
        r == spec_parse_f1(s@),
{
    if s.unicode_len() != 19 {
        return None;
    }
    if !(s.get_char(4) == '-' && s.get_char(7) == '-' && s.get_char(10) == ' ' && s.get_char(13)
        == ':' && s.get_char(16) == ':') {
        return None;
    }
    match (read4(s, 0), read2(s, 5), read2(s, 8), read2(s, 11), read2(s, 14), read2(s, 17)) {
        (Some(y), Some(mo), Some(d), Some(h), Some(mi), Some(sec)) => make_date_time(
            y,
            mo,
            d,
            h,
            mi,
            sec,
        ),
        _ => None,
    }
}

fn parse_f2(s: &str) -> (r: Option<CanonicalDateTime>)
    ensures
        r == spec_parse_f2(s@),
{
    if s.unicode_len() != 19 {
        return None;
    }
    if !(s.get_char(2) == '.' && s.get_char(5) == '.' && s.get_char(10) == ' ' && s.get_char(13)
        == ':' && s.get_char(16) == ':') {
        return None;
    }
    match (read2(s, 0), read2(s, 3), read4(s, 6), read2(s, 11), read2(s, 14), read2(s, 17)) {
        (Some(d), Some(mo), Some(y), Some(h), Some(mi), Some(sec)) => make_date_time(
            y,
            mo,
            d,
            h,
            mi,
            sec,
        ),
        _ => None,
    }
}

fn parse_f3(s: &str) -> (r: Option<CanonicalDateTime>)
    ensures
        r == spec_parse_f3(s@),
{
    if s.unicode_len() != 19 {
        return None;
    }
    if !(s.get_char(2) == '-' && s.get_char(5) == '-' && s.get_char(10) == ' ' && s.get_char(13)
        == ':' && s.get_char(16) == ':') {
        return None;
    }
    match (read2(s, 0), read2(s, 3), read4(s, 6), read2(s, 11), read2(s, 14), read2(s, 17)) {
        (Some(d), Some(mo), Some(y), Some(h), Some(mi), Some(sec)) => make_date_time(
            y,
            mo,
            d,
            h,
            mi,
            sec,
        ),
        _ => None,
    }
}

fn parse_f4(s: &str) -> (r: Option<CanonicalDateTime>)
    ensures
        r == spec_parse_f4(s@),
{
    if s.unicode_len() != 16 {
        return None;
    }
    if !(s.get_char(2) == ':' && s.get_char(5) == ' ' && s.get_char(8) == '.' && s.get_char(11)
        == '.') {
        return None;
    }
    match (read2(s, 0), read2(s, 3), read2(s, 6), read2(s, 9), read4(s, 12)) {
        (Some(h), Some(mi), Some(d), Some(mo), Some(y)) => make_date_time(y, mo, d, h, mi, 0),
        _ => None,
    }
}

fn parse_f5(s: &str) -> (r: Option<CanonicalDateTime>)
    ensures
        r == spec_parse_f5(s@),
{
    if s.unicode_len() != 10 {
        return None;
    }
    if !(s.get_char(4) == '-' && s.get_char(7) == '-') {
        return None;
    }
    match (read4(s, 0), read2(s, 5), read2(s, 8)) {
        (Some(y), Some(mo), Some(d)) => make_date_time(y, mo, d, 0, 0, 0),
        _ => None,
    }
}

/// Decodes a date-time string against the ordered pattern list, first match
/// winning; exactly the strings no pattern accepts fail.
pub fn parse_date_time(s: &str) -> (r: Result<CanonicalDateTime, DateDecodeError>)
    ensures
        r matches Ok(dt) ==> spec_parse_date_time(s@) == Some(dt) && dt.wf(),
        r is Err <==> spec_parse_date_time(s@) is None,
{
    if let Some(dt) = parse_f1(s) {
        return Ok(dt);
    }
    if let Some(dt) = parse_f2(s) {
        return Ok(dt);
    }
    if let Some(dt) = parse_f3(s) {
        return Ok(dt);
    }
    if let Some(dt) = parse_f4(s) {
        return Ok(dt);
    }
    if let Some(dt) = parse_f5(s) {
        return Ok(dt);
    }
    Err(DateDecodeError { raw: s.to_owned() })
}

/// Decodes the single fixed pattern some endpoints use for a mandatory
/// creation time: day-month-year with dash separators.
pub fn parse_date_time_np(s: &str) -> (r: Result<CanonicalDateTime, DateDecodeError>)
    ensures
        r matches Ok(dt) ==> spec_parse_f3(s@) == Some(dt) && dt.wf(),
        r is Err <==> spec_parse_f3(s@) is None,
{
    match parse_f3(s) {
        Some(dt) => Ok(dt),
        None => Err(DateDecodeError { raw: s.to_owned() }),
    }
}

/// Date-only pattern used by document-creation payloads
/// ("11.10.2023").
pub open spec fn shape_date_only(s: Seq<char>) -> bool {
    &&& s.len() == 10
    &&& d2(s, 0)
    &&& s[2] == '.'
    &&& d2(s, 3)
    &&& s[5] == '.'
    &&& d4(s, 6)
}

pub open spec fn spec_parse_date_only(s: Seq<char>) -> Option<CanonicalDate> {
    if shape_date_only(s) && valid_parts(v4(s, 6), v2(s, 3), v2(s, 0), 0, 0, 0) {
        Some(CanonicalDate { year: v4(s, 6) as u16, month: v2(s, 3) as u8, day: v2(s, 0) as u8 })
    } else {
        None
    }
}

/// Decodes a date-only string in the day-month-year dot pattern.
pub fn parse_date_only(s: &str) -> (r: Result<CanonicalDate, DateDecodeError>)
    ensures
        r matches Ok(dt) ==> spec_parse_date_only(s@) == Some(dt) && dt.wf(),
        r is Err <==> spec_parse_date_only(s@) is None,
{
    if s.unicode_len() != 10 {
        return Err(DateDecodeError { raw: s.to_owned() });
    }
    if !(s.get_char(2) == '.' && s.get_char(5) == '.') {
        return Err(DateDecodeError { raw: s.to_owned() });
    }
    match (read2(s, 0), read2(s, 3), read4(s, 6)) {
        (Some(d), Some(mo), Some(y)) => match make_date(y, mo, d) {
            Some(dt) => Ok(dt),
            None => Err(DateDecodeError { raw: s.to_owned() }),
        },
        _ => Err(DateDecodeError { raw: s.to_owned() }),
    }
}

// ---------------------------------------------------------------------------
// Rendering
// ---------------------------------------------------------------------------

/// Two-digit zero-padded rendering.
pub open spec fn pad2(n: int) -> Seq<char> {
    seq![digit_char(n / 10), digit_char(n % 10)]
}

/// Four-digit zero-padded rendering.
pub open spec fn pad4(n: int) -> Seq<char> {
    seq![
        digit_char(n / 1000),
        digit_char((n / 100) % 10),
        digit_char((n / 10) % 10),
        digit_char(n % 10),
    ]
}

/// The canonical output pattern: pattern 1, year-month-day with time.
pub open spec fn spec_render_canonical(dt: CanonicalDateTime) -> Seq<char> {
    pad4(dt.year as int) + seq!['-'] + pad2(dt.month as int) + seq!['-'] + pad2(dt.day as int)
        + seq![' '] + pad2(dt.hour as int) + seq![':'] + pad2(dt.minute as int) + seq![':'] + pad2(
        dt.second as int,
    )
}

/// Pattern 2 rendering of an instant.
pub open spec fn spec_render_f2(dt: CanonicalDateTime) -> Seq<char> {
    pad2(dt.day as int) + seq!['.'] + pad2(dt.month as int) + seq!['.'] + pad4(dt.year as int)
        + seq![' '] + pad2(dt.hour as int) + seq![':'] + pad2(dt.minute as int) + seq![':'] + pad2(
        dt.second as int,
    )
}

/// Pattern 3 rendering of an instant.
pub open spec fn spec_render_f3(dt: CanonicalDateTime) -> Seq<char> {
    pad2(dt.day as int) + seq!['-'] + pad2(dt.month as int) + seq!['-'] + pad4(dt.year as int)
        + seq![' '] + pad2(dt.hour as int) + seq![':'] + pad2(dt.minute as int) + seq![':'] + pad2(
        dt.second as int,
    )
}

/// Pattern 4 rendering of an instant; it carries no seconds.
pub open spec fn spec_render_f4(dt: CanonicalDateTime) -> Seq<char> {
    pad2(dt.hour as int) + seq![':'] + pad2(dt.minute as int) + seq![' '] + pad2(dt.day as int)
        + seq!['.'] + pad2(dt.month as int) + seq!['.'] + pad4(dt.year as int)
}

/// Pattern 5 rendering: the date alone.
pub open spec fn spec_render_f5(dt: CanonicalDateTime) -> Seq<char> {
    pad4(dt.year as int) + seq!['-'] + pad2(dt.month as int) + seq!['-'] + pad2(dt.day as int)
}

/// Date-only rendering in the day-month-year dot pattern.
pub open spec fn spec_render_date_only(d: CanonicalDate) -> Seq<char> {
    pad2(d.day as int) + seq!['.'] + pad2(d.month as int) + seq!['.'] + pad4(d.year as int)
}

fn push2(s: &mut String, n: u8)
    requires
        n <= 99,
    ensures
        final(s)@ == old(s)@ + pad2(n as int),
{
    push_char(s, char_of_digit(n / 10));
    push_char(s, char_of_digit(n % 10));
    proof {
        assert(final(s)@ =~= old(s)@ + pad2(n as int));
    }
}

fn push4(s: &mut String, n: u16)
    requires
        n <= 9999,
    ensures
        final(s)@ == old(s)@ + pad4(n as int),
{
    push_char(s, char_of_digit((n / 1000) as u8));
    push_char(s, char_of_digit(((n / 100) % 10) as u8));
    push_char(s, char_of_digit(((n / 10) % 10) as u8));
    push_char(s, char_of_digit((n % 10) as u8));
    proof {
        assert(final(s)@ =~= old(s)@ + pad4(n as int));
    }
}

/// Serializes an instant in the one canonical output pattern, whatever
/// input pattern produced it.
pub fn render_date_time(dt: &CanonicalDateTime) -> (r: String)
    requires
        dt.wf(),
    ensures
        r@ == spec_render_canonical(*dt),
{
    let mut s = String::new();
    push4(&mut s, dt.year);
    push_char(&mut s, '-');
    push2(&mut s, dt.month);
    push_char(&mut s, '-');
    push2(&mut s, dt.day);
    push_char(&mut s, ' ');
    push2(&mut s, dt.hour);
    push_char(&mut s, ':');
    push2(&mut s, dt.minute);
    push_char(&mut s, ':');
    push2(&mut s, dt.second);
    proof {
        assert(s@ =~= spec_render_canonical(*dt));
    }
    s
}

/// Serializes an instant in the day-month-year dash pattern some endpoints
/// require.
pub fn render_date_time_np(dt: &CanonicalDateTime) -> (r: String)
    requires
        dt.wf(),
    ensures
        r@ == spec_render_f3(*dt),
{
    let mut s = String::new();
    push2(&mut s, dt.day);
    push_char(&mut s, '-');
    push2(&mut s, dt.month);
    push_char(&mut s, '-');
    push4(&mut s, dt.year);
    push_char(&mut s, ' ');
    push2(&mut s, dt.hour);
    push_char(&mut s, ':');
    push2(&mut s, dt.minute);
    push_char(&mut s, ':');
    push2(&mut s, dt.second);
    proof {
        assert(s@ =~= spec_render_f3(*dt));
    }
    s
}

/// Serializes a date in the day-month-year dot pattern.
pub fn render_date_only(d: &CanonicalDate) -> (r: String)
    requires
        d.wf(),
    ensures
        r@ == spec_render_date_only(*d),
{
    let mut s = String::new();
    push2(&mut s, d.day);
    push_char(&mut s, '.');
    push2(&mut s, d.month);
    push_char(&mut s, '.');
    push4(&mut s, d.year);
    proof {
        assert(s@ =~= spec_render_date_only(*d));
    }
    s
}

// ---------------------------------------------------------------------------
// The round-trip law
// ---------------------------------------------------------------------------

proof fn lemma_dec2(n: int)
    requires
        0 <= n <= 99,
    ensures
        d2(pad2(n), 0),
        v2(pad2(n), 0) == n,
{
    lemma_fundamental_div_mod(n, 10);
}

proof fn lemma_dec4(n: int)
    requires
        0 <= n <= 9999,
    ensures
        d4(pad4(n), 0),
        v4(pad4(n), 0) == n,
{
    lemma_fundamental_div_mod(n, 10);
    assert(n == 10 * (n / 10) + n % 10);
    lemma_div_denominator(n, 10, 10);
    assert((n / 10) / 10 == n / 100);
    lemma_fundamental_div_mod(n / 10, 10);
    assert(n / 10 == 10 * (n / 100) + (n / 10) % 10);
    lemma_div_denominator(n, 100, 10);
    assert((n / 100) / 10 == n / 1000);
    lemma_fundamental_div_mod(n / 100, 10);
    assert(n / 100 == 10 * (n / 1000) + (n / 100) % 10);
    assert(n == 1000 * (n / 1000) + 100 * ((n / 100) % 10) + 10 * ((n / 10) % 10) + n % 10);
    assert(0 <= n / 1000 <= 9);
}

/// Every accepted input pattern for an instant decodes back to that exact
/// instant, so decode-then-encode yields the identical canonical string for
/// each of the five patterns. Patterns four and five carry fewer parts, so
/// they represent exactly the instants whose missing parts are zero.
pub proof fn lemma_date_round_trip(dt: CanonicalDateTime)
    requires
        dt.wf(),
    ensures
        spec_parse_date_time(spec_render_canonical(dt)) == Some(dt),
        spec_parse_date_time(spec_render_f2(dt)) == Some(dt),
        spec_parse_date_time(spec_render_f3(dt)) == Some(dt),
        dt.second == 0 ==> spec_parse_date_time(spec_render_f4(dt)) == Some(dt),
        dt.hour == 0 && dt.minute == 0 && dt.second == 0 ==> spec_parse_date_time(
            spec_render_f5(dt),
        ) == Some(dt),
{
    lemma_dec2(dt.month as int);
    lemma_dec2(dt.day as int);
    lemma_dec2(dt.hour as int);
    lemma_dec2(dt.minute as int);
    lemma_dec2(dt.second as int);
    lemma_dec4(dt.year as int);
    lemma_render_f1_parses(dt);
    lemma_render_f2_parses(dt);
    lemma_render_f3_parses(dt);
    if dt.second == 0 {
        lemma_render_f4_parses(dt);
    }
    if dt.hour == 0 && dt.minute == 0 && dt.second == 0 {
        lemma_render_f5_parses(dt);
    }
}

proof fn lemma_render_f1_parses(dt: CanonicalDateTime)
    requires
        dt.wf(),
    ensures
        spec_parse_date_time(spec_render_canonical(dt)) == Some(dt),
{
    let s = spec_render_canonical(dt);
    lemma_dec2(dt.month as int);
    lemma_dec2(dt.day as int);
    lemma_dec2(dt.hour as int);
    lemma_dec2(dt.minute as int);
    lemma_dec2(dt.second as int);
    lemma_dec4(dt.year as int);
    assert(s.len() == 19);
    assert(s[0] == pad4(dt.year as int)[0] && s[1] == pad4(dt.year as int)[1] && s[2] == pad4(
        dt.year as int,
    )[2] && s[3] == pad4(dt.year as int)[3]);
    assert(s[4] == '-');
    assert(s[5] == pad2(dt.month as int)[0] && s[6] == pad2(dt.month as int)[1]);
    assert(s[7] == '-');
    assert(s[8] == pad2(dt.day as int)[0] && s[9] == pad2(dt.day as int)[1]);
    assert(s[10] == ' ');
    assert(s[11] == pad2(dt.hour as int)[0] && s[12] == pad2(dt.hour as int)[1]);
    assert(s[13] == ':');
    assert(s[14] == pad2(dt.minute as int)[0] && s[15] == pad2(dt.minute as int)[1]);
    assert(s[16] == ':');
    assert(s[17] == pad2(dt.second as int)[0] && s[18] == pad2(dt.second as int)[1]);
    assert(v4(s, 0) == dt.year as int);
    assert(v2(s, 5) == dt.month as int);
    assert(v2(s, 8) == dt.day as int);
    assert(v2(s, 11) == dt.hour as int);
    assert(v2(s, 14) == dt.minute as int);
    assert(v2(s, 17) == dt.second as int);
    assert(shape_f1(s));
    assert(spec_parse_f1(s) == Some(dt));
}

proof fn lemma_render_f2_parses(dt: CanonicalDateTime)
    requires
        dt.wf(),
    ensures
        spec_parse_date_time(spec_render_f2(dt)) == Some(dt),
{
    let s = spec_render_f2(dt);
    lemma_dec2(dt.month as int);
    lemma_dec2(dt.day as int);
    lemma_dec2(dt.hour as int);
    lemma_dec2(dt.minute as int);
    lemma_dec2(dt.second as int);
    lemma_dec4(dt.year as int);
    assert(s.len() == 19);
    assert(s[0] == pad2(dt.day as int)[0] && s[1] == pad2(dt.day as int)[1]);
    assert(s[2] == '.');
    assert(s[3] == pad2(dt.month as int)[0] && s[4] == pad2(dt.month as int)[1]);
    assert(s[5] == '.');
    assert(s[6] == pad4(dt.year as int)[0] && s[7] == pad4(dt.year as int)[1] && s[8] == pad4(
        dt.year as int,
    )[2] && s[9] == pad4(dt.year as int)[3]);
    assert(s[10] == ' ');
    assert(s[11] == pad2(dt.hour as int)[0] && s[12] == pad2(dt.hour as int)[1]);
    assert(s[13] == ':');
    assert(s[14] == pad2(dt.minute as int)[0] && s[15] == pad2(dt.minute as int)[1]);
    assert(s[16] == ':');
    assert(s[17] == pad2(dt.second as int)[0] && s[18] == pad2(dt.second as int)[1]);
    assert(v2(s, 0) == dt.day as int);
    assert(v2(s, 3) == dt.month as int);
    assert(v4(s, 6) == dt.year as int);
    assert(v2(s, 11) == dt.hour as int);
    assert(v2(s, 14) == dt.minute as int);
    assert(v2(s, 17) == dt.second as int);
    assert(shape_f2(s));
    // Pattern 1 cannot also match: its fifth character would be a dash
    // where this rendering holds a dot.
    assert(!shape_f1(s));
    assert(spec_parse_f2(s) == Some(dt));
}

proof fn lemma_render_f3_parses(dt: CanonicalDateTime)
    requires
        dt.wf(),
    ensures
        spec_parse_date_time(spec_render_f3(dt)) == Some(dt),
{
    let s = spec_render_f3(dt);
    lemma_dec2(dt.month as int);
    lemma_dec2(dt.day as int);
    lemma_dec2(dt.hour as int);
    lemma_dec2(dt.minute as int);
    lemma_dec2(dt.second as int);
    lemma_dec4(dt.year as int);
    assert(s.len() == 19);
    assert(s[0] == pad2(dt.day as int)[0] && s[1] == pad2(dt.day as int)[1]);
    assert(s[2] == '-');
    assert(s[3] == pad2(dt.month as int)[0] && s[4] == pad2(dt.month as int)[1]);
    assert(s[5] == '-');
    assert(s[6] == pad4(dt.year as int)[0] && s[7] == pad4(dt.year as int)[1] && s[8] == pad4(
        dt.year as int,
    )[2] && s[9] == pad4(dt.year as int)[3]);
    assert(s[10] == ' ');
    assert(s[11] == pad2(dt.hour as int)[0] && s[12] == pad2(dt.hour as int)[1]);
    assert(s[13] == ':');
    assert(s[14] == pad2(dt.minute as int)[0] && s[15] == pad2(dt.minute as int)[1]);
    assert(s[16] == ':');
    assert(s[17] == pad2(dt.second as int)[0] && s[18] == pad2(dt.second as int)[1]);
    assert(v2(s, 0) == dt.day as int);
    assert(v2(s, 3) == dt.month as int);
    assert(v4(s, 6) == dt.year as int);
    assert(v2(s, 11) == dt.hour as int);
    assert(v2(s, 14) == dt.minute as int);
    assert(v2(s, 17) == dt.second as int);
    assert(shape_f3(s));
    // Neither earlier pattern matches: pattern 1 needs a dash at index 4,
    // where this rendering holds a digit; pattern 2 needs dots.
    assert(!shape_f1(s));
    assert(!shape_f2(s));
    assert(spec_parse_f3(s) == Some(dt));
}

proof fn lemma_render_f4_parses(dt: CanonicalDateTime)
    requires
        dt.wf(),
        dt.second == 0,
    ensures
        spec_parse_date_time(spec_render_f4(dt)) == Some(dt),
{
    let s = spec_render_f4(dt);
    lemma_dec2(dt.month as int);
    lemma_dec2(dt.day as int);
    lemma_dec2(dt.hour as int);
    lemma_dec2(dt.minute as int);
    lemma_dec4(dt.year as int);
    assert(s.len() == 16);
    assert(s[0] == pad2(dt.hour as int)[0] && s[1] == pad2(dt.hour as int)[1]);
    assert(s[2] == ':');
    assert(s[3] == pad2(dt.minute as int)[0] && s[4] == pad2(dt.minute as int)[1]);
    assert(s[5] == ' ');
    assert(s[6] == pad2(dt.day as int)[0] && s[7] == pad2(dt.day as int)[1]);
    assert(s[8] == '.');
    assert(s[9] == pad2(dt.month as int)[0] && s[10] == pad2(dt.month as int)[1]);
    assert(s[11] == '.');
    assert(s[12] == pad4(dt.year as int)[0] && s[13] == pad4(dt.year as int)[1] && s[14] == pad4(
        dt.year as int,
    )[2] && s[15] == pad4(dt.year as int)[3]);
    assert(v2(s, 0) == dt.hour as int);
    assert(v2(s, 3) == dt.minute as int);
    assert(v2(s, 6) == dt.day as int);
    assert(v2(s, 9) == dt.month as int);
    assert(v4(s, 12) == dt.year as int);
    assert(shape_f4(s));
    // The earlier patterns all need nineteen characters.
    assert(!shape_f1(s) && !shape_f2(s) && !shape_f3(s));
    assert(spec_parse_f4(s) == Some(dt));
}

proof fn lemma_render_f5_parses(dt: CanonicalDateTime)
    requires
        dt.wf(),
        dt.hour == 0,
        dt.minute == 0,
        dt.second == 0,
    ensures
        spec_parse_date_time(spec_render_f5(dt)) == Some(dt),
{
    let s = spec_render_f5(dt);
    lemma_dec2(dt.month as int);
    lemma_dec2(dt.day as int);
    lemma_dec4(dt.year as int);
    assert(s.len() == 10);
    assert(s[0] == pad4(dt.year as int)[0] && s[1] == pad4(dt.year as int)[1] && s[2] == pad4(
        dt.year as int,
    )[2] && s[3] == pad4(dt.year as int)[3]);
    assert(s[4] == '-');
    assert(s[5] == pad2(dt.month as int)[0] && s[6] == pad2(dt.month as int)[1]);
    assert(s[7] == '-');
    assert(s[8] == pad2(dt.day as int)[0] && s[9] == pad2(dt.day as int)[1]);
    assert(v4(s, 0) == dt.year as int);
    assert(v2(s, 5) == dt.month as int);
    assert(v2(s, 8) == dt.day as int);
    assert(shape_f5(s));
    // The earlier patterns all need more than ten characters.
    assert(!shape_f1(s) && !shape_f2(s) && !shape_f3(s) && !shape_f4(s));
    assert(spec_parse_f5(s) == Some(dt));
}

} // verus!
