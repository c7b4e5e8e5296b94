//! Heterogeneous scalar decoding.
//!
//! The wire encodes scalars inconsistently: booleans as the strings "0" and
//! "1", numbers as JSON numbers or as decimal strings, and absent optional
//! values as empty strings. Every field decoder first goes through an
//! explicit "any JSON scalar" representation ([`RawScalar`]) and then
//! projects into the target kind, never assuming the wire shape matches the
//! target type.

use vstd::prelude::*;

use crate::text::{
    all_dec_digits, dec_val, digit_of, digit_val, is_dec_digit, is_dec_digit_char,
    lemma_dec_val_nonneg, lemma_dec_val_prefix,
};

verus! {

/// Ghost value of a raw JSON scalar.
pub enum ScalarV {
    NullV,
    BoolV(bool),
    /// A JSON number, carried as its decimal text.
    NumV(Seq<char>),
    TextV(Seq<char>),
    /// An array or object standing where a scalar was expected.
    CompositeV,
}

/// A raw JSON scalar, the explicit intermediate representation every field
/// decoder projects from. A JSON number is carried as its decimal text, so
/// that the numeric rules can be stated and checked on plain characters.
pub enum RawScalar {
    Null,
    BoolLit(bool),
    NumText(String),
    Text(String),
    Composite,
}

impl View for RawScalar {
    type V = ScalarV;

    open spec fn view(&self) -> ScalarV {
        match self {
            RawScalar::Null => ScalarV::NullV,
            RawScalar::BoolLit(b) => ScalarV::BoolV(*b),
            RawScalar::NumText(s) => ScalarV::NumV(s@),
            RawScalar::Text(s) => ScalarV::TextV(s@),
            RawScalar::Composite => ScalarV::CompositeV,
        }
    }
}

/// A scalar arrived in a shape the target kind does not accept.
#[derive(Debug, Clone, PartialEq, Eq)]
pub struct ScalarDecodeError {
    /// Textual content of the offending scalar, when it had one.
    pub raw: String,
    /// What the decoder was prepared to accept.
    pub expected: String,
}

// ---------------------------------------------------------------------------
// Integer texts
// ---------------------------------------------------------------------------

/// An optional minus sign followed by at least one decimal digit.
pub open spec fn is_int_text(s: Seq<char>) -> bool {
    if s.len() > 0 && s[0] == '-' {
        s.len() >= 2 && all_dec_digits(s.skip(1))
    } else {
        s.len() >= 1 && all_dec_digits(s)
    }
}

/// Signed value of an integer text.
pub open spec fn int_text_val(s: Seq<char>) -> int {
    if s.len() > 0 && s[0] == '-' {
        -dec_val(s.skip(1))
    } else {
        dec_val(s)
    }
}

pub open spec fn i64_min() -> int {
    -0x8000_0000_0000_0000
}

pub open spec fn i64_max() -> int {
    0x7fff_ffff_ffff_ffff
}

/// What parsing an integer text into a 64-bit signed value yields.
pub open spec fn spec_parse_int_text(s: Seq<char>) -> Option<i64> {
    if is_int_text(s) && i64_min() <= int_text_val(s) <= i64_max() {
        Some(int_text_val(s) as i64)
    } else {
        None
    }
}

/// Reads the digits of `s` starting at `from`, accumulating their value;
/// fails when a non-digit occurs or the value passes `bound`.
fn scan_digits(s: &str, from: usize, bound: u64) -> (r: Option<u64>)
    requires
        from <= s@.len(),
        bound <= 0x8000_0000_0000_0000,
    ensures
        (match r {
            Some(v) => all_dec_digits(s@.skip(from as int)) && dec_val(s@.skip(from as int)) == v
                && v <= bound,
            None => !all_dec_digits(s@.skip(from as int)) || dec_val(s@.skip(from as int))
                > bound,
        }),
{
    let n = s.unicode_len();
    let ghost tail = s@.skip(from as int);
    let mut acc: u64 = 0;
    let mut i: usize = from;
    while i < n
        invariant
            from <= i <= n,
            n == s@.len(),
            tail == s@.skip(from as int),
            bound <= 0x8000_0000_0000_0000,
            acc <= bound,
            all_dec_digits(tail.take(i - from)),
            acc == dec_val(tail.take(i - from)),
        decreases n - i,
    {
        let c = s.get_char(i);
        proof {
            assert(tail[i - from] == s@[i as int]);
        }
        if !is_dec_digit_char(c) {
            proof {
                assert(!is_dec_digit(tail[i - from]));
            }
            return None;
        }
        let d = digit_of(c);
        proof {
            assert(tail.take(i - from + 1).drop_last() == tail.take(i - from));
            assert(tail.take(i - from + 1).last() == tail[i - from]);
            assert(dec_val(tail.take(i - from + 1)) == acc * 10 + digit_val(c));
        }
        if acc > 0x0ccc_cccc_cccc_cccc || acc.checked_mul(10).is_none() || (acc * 10)
            > (0xffff_ffff_ffff_ffff - (d as u64)) {
            // The prefix already passes every 64-bit bound.
            proof {
                assert(dec_val(tail.take(i - from + 1)) > bound);
                if all_dec_digits(tail) {
                    lemma_dec_val_prefix(tail, i - from + 1);
                }
            }
            return None;
        }
        let next: u64 = acc * 10 + (d as u64);
        if next > bound {
            proof {
                if all_dec_digits(tail) {
                    lemma_dec_val_prefix(tail, i - from + 1);
                }
            }
            return None;
        }
        acc = next;
        i += 1;
        proof {
            assert(tail.take(i - from) == tail.take(i - from - 1).push(tail[i - from - 1]));
        }
    }
    proof {
        assert(tail.take(n - from) == tail);
    }
    Some(acc)
}

/// Parses an optional minus sign followed by decimal digits into a 64-bit
/// signed value, exactly when the value fits.
pub fn parse_int_text(s: &str) -> (r: Option<i64>)
    ensures
        r == spec_parse_int_text(s@),
{
    let n = s.unicode_len();
    if n == 0 {
        return None;
    }
    let neg = s.get_char(0) == '-';
    let start: usize = if neg {
        1
    } else {
        0
    };
    if n == start {
        return None;
    }
    let bound: u64 = if neg {
        0x8000_0000_0000_0000
    } else {
        0x7fff_ffff_ffff_ffff
    };
    let mag = scan_digits(s, start, bound);
    proof {
        if !neg {
            assert(s@.skip(0) == s@);
        }
    }
    match mag {
        None => None,
        Some(m) => {
            if neg {
                if m == 0x8000_0000_0000_0000 {
                    Some(i64::MIN)
                } else {
                    Some(-(m as i64))
                }
            } else {
                Some(m as i64)
            }
        },
    }
}

/// What parsing a decimal string into a u16 yields: an optional plus sign,
/// then at least one digit, with the value in range.
pub open spec fn spec_parse_u16_text(s: Seq<char>) -> Option<u16> {
    let t = if s.len() > 0 && s[0] == '+' {
        s.skip(1)
    } else {
        s
    };
    if t.len() >= 1 && all_dec_digits(t) && dec_val(t) <= 65535 {
        Some(dec_val(t) as u16)
    } else {
        None
    }
}

/// Parses a decimal string (optionally prefixed by a plus sign) into a u16.
pub fn parse_u16_text(s: &str) -> (r: Option<u16>)
    ensures
        r == spec_parse_u16_text(s@),
{
    let n = s.unicode_len();
    if n == 0 {
        return None;
    }
    let plus = s.get_char(0) == '+';
    let start: usize = if plus {
        1
    } else {
        0
    };
    if n == start {
        return None;
    }
    proof {
        if !plus {
            assert(s@.skip(0) == s@);
        }
    }
    match scan_digits(s, start, 65535) {
        None => None,
        Some(m) => Some(m as u16),
    }
}

// ---------------------------------------------------------------------------
// Number texts
// ---------------------------------------------------------------------------

/// One step of the decimal-number automaton. States: 0 start, 1 after sign,
/// 2 integer digits, 3 dot after digits, 4 fraction digits, 8 leading dot,
/// 5 after the exponent letter, 6 after the exponent sign, 7 exponent
/// digits; -1 is the dead state.
pub open spec fn num_step(st: int, c: char) -> int {
    if st == 0 {
        if c == '+' || c == '-' {
            1
        } else if is_dec_digit(c) {
            2
        } else if c == '.' {
            8
        } else {
            -1
        }
    } else if st == 1 {
        if is_dec_digit(c) {
            2
        } else if c == '.' {
            8
        } else {
            -1
        }
    } else if st == 2 {
        if is_dec_digit(c) {
            2
        } else if c == '.' {
            3
        } else if c == 'e' || c == 'E' {
            5
        } else {
            -1
        }
    } else if st == 3 || st == 4 {
        if is_dec_digit(c) {
            4
        } else if c == 'e' || c == 'E' {
            5
        } else {
            -1
        }
    } else if st == 8 {
        if is_dec_digit(c) {
            4
        } else {
            -1
        }
    } else if st == 5 {
        if c == '+' || c == '-' {
            6
        } else if is_dec_digit(c) {
            7
        } else {
            -1
        }
    } else if st == 6 || st == 7 {
        if is_dec_digit(c) {
            7
        } else {
            -1
        }
    } else {
        -1
    }
}

/// Runs the automaton over a whole string, starting from the start state.
pub open spec fn num_run(s: Seq<char>) -> int
    decreases s.len(),
{
    if s.len() == 0 {
        0
    } else {
        num_step(num_run(s.drop_last()), s.last())
    }
}

/// A decimal number in the shape the wire uses for numeric strings:
/// an optional sign, then digits with an optional fractional part (or a
/// fraction alone), then an optional exponent. This shape is the intended
/// rule for numeric wire fields; the infinity and not-a-number spellings
/// some float parsers take have no place in a JSON body and are refused.
pub open spec fn is_number_text(s: Seq<char>) -> bool {
    let st = num_run(s);
    st == 2 || st == 3 || st == 4 || st == 7
}

fn num_step_exec(st: i8, c: char) -> (r: i8)
    requires
        -1 <= st <= 8,
    ensures
        r == num_step(st as int, c),
        -1 <= r <= 8,
{
    if st == 0 {
        if c == '+' || c == '-' {
            1
        } else if is_dec_digit_char(c) {
            2
        } else if c == '.' {
            8
        } else {
            -1
        }
    } else if st == 1 {
        if is_dec_digit_char(c) {
            2
        } else if c == '.' {
            8
        } else {
            -1
        }
    } else if st == 2 {
        if is_dec_digit_char(c) {
            2
        } else if c == '.' {
            3
        } else if c == 'e' || c == 'E' {
            5
        } else {
            -1
        }
    } else if st == 3 || st == 4 {
        if is_dec_digit_char(c) {
            4
        } else if c == 'e' || c == 'E' {
            5
        } else {
            -1
        }
    } else if st == 8 {
        if is_dec_digit_char(c) {
            4
        } else {
            -1
        }
    } else if st == 5 {
        if c == '+' || c == '-' {
            6
        } else if is_dec_digit_char(c) {
            7
        } else {
            -1
        }
    } else if st == 6 || st == 7 {
        if is_dec_digit_char(c) {
            7
        } else {
            -1
        }
    } else {
        -1
    }
}

/// Checks a string against the decimal-number shape.
pub fn check_number_text(s: &str) -> (r: bool)
    ensures
        r == is_number_text(s@),
{
    let n = s.unicode_len();
    let mut st: i8 = 0;
    let mut i: usize = 0;
    while i < n
        invariant
            0 <= i <= n,
            n == s@.len(),
            -1 <= st <= 8,
            st == num_run(s@.take(i as int)),
        decreases n - i,
    {
        let c = s.get_char(i);
        st = num_step_exec(st, c);
        i += 1;
        proof {
            assert(s@.take(i as int).drop_last() == s@.take(i - 1));
            assert(s@.take(i as int).last() == s@[i - 1]);
        }
    }
    proof {
        assert(s@.take(n as int) == s@);
    }
    st == 2 || st == 3 || st == 4 || st == 7
}

/// Decimal text validated against the number shape; the canonical carrier
/// for numeric wire fields whose exact value the caller does not compute.
#[derive(Debug, Clone, PartialEq, Eq)]
pub struct NumText {
    text: String,
}

impl View for NumText {
    type V = Seq<char>;

    closed spec fn view(&self) -> Seq<char> {
        self.text@
    }
}

impl NumText {
    pub open spec fn wf(&self) -> bool {
        is_number_text(self@)
    }

    /// Accepts exactly the strings in the decimal-number shape.
    pub fn new(text: String) -> (r: Result<NumText, ScalarDecodeError>)
        ensures
            r matches Ok(t) ==> t@ == text@ && t.wf(),
            r is Ok <==> is_number_text(text@),
    {
        if check_number_text(text.as_str()) {
            Ok(NumText { text })
        } else {
            Err(ScalarDecodeError { raw: text, expected: expected_number() })
        }
    }

    pub fn as_str(&self) -> (r: &str)
        ensures
            r@ == self@,
    {
        self.text.as_str()
    }
}

fn expected_number() -> String {
    String::from_str("number or empty string")
}

// ---------------------------------------------------------------------------
// The decoding rules
// ---------------------------------------------------------------------------

/// The boolean rule: exactly the strings "0" and "1" stand for false and
/// true; every other scalar is refused, a bare JSON boolean included.
pub open spec fn spec_decode_bool01(v: ScalarV) -> Option<bool> {
    match v {
        ScalarV::TextV(s) => if s == seq!['0'] {
            Some(false)
        } else if s == seq!['1'] {
            Some(true)
        } else {
            None
        },
        _ => None,
    }
}

/// For all strings "0"/"1" the decoder returns false/true; any other
/// string, and any scalar that is not a string, fails.
pub fn decode_bool_str(v: &RawScalar) -> (r: Result<bool, ScalarDecodeError>)
    ensures
        r matches Ok(b) ==> spec_decode_bool01(v@) == Some(b),
        r is Err <==> spec_decode_bool01(v@) is None,
{
    match v {
        RawScalar::Text(s) => {
            let n = s.as_str().unicode_len();
            if n == 1 {
                let c = s.as_str().get_char(0);
                proof {
                    assert(s@ =~= seq![s@[0]]);
                }
                if c == '0' {
                    Ok(false)
                } else if c == '1' {
                    Ok(true)
                } else {
                    Err(ScalarDecodeError { raw: s.clone(), expected: expected_bool01() })
                }
            } else {
                proof {
                    assert(s@ != seq!['0'] && s@ != seq!['1']) by {
                        assert(seq!['0'].len() == 1 && seq!['1'].len() == 1);
                    }
                }
                Err(ScalarDecodeError { raw: s.clone(), expected: expected_bool01() })
            }
        },
        RawScalar::NumText(s) => Err(
            ScalarDecodeError { raw: s.clone(), expected: expected_bool01() },
        ),
        _ => Err(ScalarDecodeError { raw: String::new(), expected: expected_bool01() }),
    }
}

fn expected_bool01() -> String {
    String::from_str("the string \"0\" or \"1\"")
}

/// The optional-text rule: the empty string and JSON null stand for
/// absence; any non-empty string is present with exactly its value; any
/// other scalar is refused.
pub open spec fn spec_decode_opt_text(v: ScalarV) -> Option<Option<Seq<char>>> {
    match v {
        ScalarV::TextV(s) => if s.len() == 0 {
            Some(None)
        } else {
            Some(Some(s))
        },
        ScalarV::NullV => Some(None),
        _ => None,
    }
}

/// Empty string or null decodes to absence; a non-empty string to its exact
/// value; every endpoint shares this one rule.
pub fn decode_opt_text(v: &RawScalar) -> (r: Result<Option<String>, ScalarDecodeError>)
    ensures
        r matches Ok(o) ==> (match o {
            Some(s) => spec_decode_opt_text(v@) == Some(Some(s@)),
            None => spec_decode_opt_text(v@) == Some(None::<Seq<char>>),
        }),
        r is Err <==> spec_decode_opt_text(v@) is None,
{
    match v {
        RawScalar::Text(s) => {
            if s.as_str().unicode_len() == 0 {
                Ok(None)
            } else {
                Ok(Some(s.clone()))
            }
        },
        RawScalar::Null => Ok(None),
        RawScalar::NumText(s) => Err(
            ScalarDecodeError { raw: s.clone(), expected: expected_text() },
        ),
        _ => Err(ScalarDecodeError { raw: String::new(), expected: expected_text() }),
    }
}

fn expected_text() -> String {
    String::from_str("a string")
}

/// The optional-integer rule. A JSON number must carry an integer within
/// the 16-bit unsigned range; one out of range, or not integral, is an
/// unexpected encoding and is refused. A string must be empty (absence)
/// or a decimal in range. Null is absence. Everything else is refused.
pub open spec fn spec_decode_opt_u16(v: ScalarV) -> Option<Option<u16>> {
    match v {
        ScalarV::NumV(t) => match spec_parse_int_text(t) {
            Some(n) => if 0 <= n <= 65535 {
                Some(Some(n as u16))
            } else {
                None
            },
            None => None,
        },
        ScalarV::TextV(s) => if s.len() == 0 {
            Some(None)
        } else {
            match spec_parse_u16_text(s) {
                Some(n) => Some(Some(n)),
                None => None,
            }
        },
        ScalarV::NullV => Some(None),
        _ => None,
    }
}

pub fn decode_opt_u16(v: &RawScalar) -> (r: Result<Option<u16>, ScalarDecodeError>)
    ensures
        r matches Ok(o) ==> spec_decode_opt_u16(v@) == Some(o),
        r is Err <==> spec_decode_opt_u16(v@) is None,
{
    match v {
        RawScalar::NumText(t) => match parse_int_text(t.as_str()) {
            Some(n) => if 0 <= n && n <= 65535 {
                Ok(Some(n as u16))
            } else {
                Err(ScalarDecodeError { raw: t.clone(), expected: expected_number() })
            },
            None => Err(ScalarDecodeError { raw: t.clone(), expected: expected_number() }),
        },
        RawScalar::Text(s) => {
            if s.as_str().unicode_len() == 0 {
                Ok(None)
            } else {
                match parse_u16_text(s.as_str()) {
                    Some(n) => Ok(Some(n)),
                    None => Err(ScalarDecodeError { raw: s.clone(), expected: expected_number() }),
                }
            }
        },
        RawScalar::Null => Ok(None),
        _ => Err(ScalarDecodeError { raw: String::new(), expected: expected_number() }),
    }
}

/// The optional-number rule: a JSON number is present with its decimal
/// text; a string must be empty (absence) or in the decimal-number shape;
/// null is absence; everything else is refused. The decimal-number shape
/// is the intended wire rule: JSON carries no infinities or
/// not-a-number values, so texts such as "inf" or "NaN" are refused.
pub open spec fn spec_decode_opt_number(v: ScalarV) -> Option<Option<Seq<char>>> {
    match v {
        ScalarV::NumV(t) => if is_number_text(t) {
            Some(Some(t))
        } else {
            None
        },
        ScalarV::TextV(s) => if s.len() == 0 {
            Some(None)
        } else if is_number_text(s) {
            Some(Some(s))
        } else {
            None
        },
        ScalarV::NullV => Some(None),
        _ => None,
    }
}

pub fn decode_opt_number(v: &RawScalar) -> (r: Result<Option<NumText>, ScalarDecodeError>)
    ensures
        r matches Ok(o) ==> (match o {
            Some(t) => spec_decode_opt_number(v@) == Some(Some(t@)) && t.wf(),
            None => spec_decode_opt_number(v@) == Some(None::<Seq<char>>),
        }),
        r is Err <==> spec_decode_opt_number(v@) is None,
{
    match v {
        RawScalar::NumText(t) => match NumText::new(t.clone()) {
            Ok(nt) => Ok(Some(nt)),
            Err(e) => Err(e),
        },
        RawScalar::Text(s) => {
            if s.as_str().unicode_len() == 0 {
                Ok(None)
            } else {
                match NumText::new(s.clone()) {
                    Ok(nt) => Ok(Some(nt)),
                    Err(e) => Err(e),
                }
            }
        },
        RawScalar::Null => Ok(None),
        _ => Err(ScalarDecodeError { raw: String::new(), expected: expected_number() }),
    }
}

// ---------------------------------------------------------------------------
// The unified decoder
// ---------------------------------------------------------------------------

/// Target kinds a field decode can ask for.
#[derive(Debug, Clone, Copy, PartialEq, Eq, Structural)]
pub enum ScalarKind {
    BoolStr,
    Integer,
    Number,
    OptionalText,
}

/// A canonical decoded scalar.
#[derive(Debug, Clone, PartialEq, Eq)]
pub enum ScalarValue {
    BoolVal(bool),
    IntVal(i64),
    NumVal(NumText),
    TextVal(String),
    Absent,
}

/// Ghost value of a canonical decoded scalar.
pub enum ScalarValueV {
    BoolValV(bool),
    IntValV(i64),
    NumValV(Seq<char>),
    TextValV(Seq<char>),
    AbsentV,
}

impl View for ScalarValue {
    type V = ScalarValueV;

    open spec fn view(&self) -> ScalarValueV {
        match self {
            ScalarValue::BoolVal(b) => ScalarValueV::BoolValV(*b),
            ScalarValue::IntVal(n) => ScalarValueV::IntValV(*n),
            ScalarValue::NumVal(t) => ScalarValueV::NumValV(t@),
            ScalarValue::TextVal(s) => ScalarValueV::TextValV(s@),
            ScalarValue::Absent => ScalarValueV::AbsentV,
        }
    }
}

/// The integer rule at full width: a JSON number carrying a 64-bit value,
/// or a non-empty decimal string, or absence for the empty string and null.
pub open spec fn spec_decode_opt_i64(v: ScalarV) -> Option<Option<i64>> {
    match v {
        ScalarV::NumV(t) => match spec_parse_int_text(t) {
            Some(n) => Some(Some(n)),
            None => None,
        },
        ScalarV::TextV(s) => if s.len() == 0 {
            Some(None)
        } else {
            match spec_parse_int_text(s) {
                Some(n) => Some(Some(n)),
                None => None,
            }
        },
        ScalarV::NullV => Some(None),
        _ => None,
    }
}

pub fn decode_opt_i64(v: &RawScalar) -> (r: Result<Option<i64>, ScalarDecodeError>)
    ensures
        r matches Ok(o) ==> spec_decode_opt_i64(v@) == Some(o),
        r is Err <==> spec_decode_opt_i64(v@) is None,
{
    match v {
        RawScalar::NumText(t) => match parse_int_text(t.as_str()) {
            Some(n) => Ok(Some(n)),
            None => Err(ScalarDecodeError { raw: t.clone(), expected: expected_number() }),
        },
        RawScalar::Text(s) => {
            if s.as_str().unicode_len() == 0 {
                Ok(None)
            } else {
                match parse_int_text(s.as_str()) {
                    Some(n) => Ok(Some(n)),
                    None => Err(ScalarDecodeError { raw: s.clone(), expected: expected_number() }),
                }
            }
        },
        RawScalar::Null => Ok(None),
        _ => Err(ScalarDecodeError { raw: String::new(), expected: expected_number() }),
    }
}

/// What decoding a raw scalar under a target kind yields.
pub open spec fn spec_decode_scalar(v: ScalarV, kind: ScalarKind) -> Option<ScalarValueV> {
    match kind {
        ScalarKind::BoolStr => match spec_decode_bool01(v) {
            Some(b) => Some(ScalarValueV::BoolValV(b)),
            None => None,
        },
        ScalarKind::Integer => match spec_decode_opt_i64(v) {
            Some(Some(n)) => Some(ScalarValueV::IntValV(n)),
            Some(None) => Some(ScalarValueV::AbsentV),
            None => None,
        },
        ScalarKind::Number => match spec_decode_opt_number(v) {
            Some(Some(t)) => Some(ScalarValueV::NumValV(t)),
            Some(None) => Some(ScalarValueV::AbsentV),
            None => None,
        },
        ScalarKind::OptionalText => match spec_decode_opt_text(v) {
            Some(Some(s)) => Some(ScalarValueV::TextValV(s)),
            Some(None) => Some(ScalarValueV::AbsentV),
            None => None,
        },
    }
}

/// Decodes one raw scalar under a target semantic kind into a canonical
/// value, or reports the unexpected encoding. Pure and total: no input
/// panics, every refused input returns the error.
pub fn decode_scalar(v: &RawScalar, kind: ScalarKind) -> (r: Result<
    ScalarValue,
    ScalarDecodeError,
>)
    ensures
        r matches Ok(s) ==> spec_decode_scalar(v@, kind) == Some(s@),
        r is Err <==> spec_decode_scalar(v@, kind) is None,
{
    match kind {
        ScalarKind::BoolStr => match decode_bool_str(v) {
            Ok(b) => Ok(ScalarValue::BoolVal(b)),
            Err(e) => Err(e),
        },
        ScalarKind::Integer => match decode_opt_i64(v) {
            Ok(Some(n)) => Ok(ScalarValue::IntVal(n)),
            Ok(None) => Ok(ScalarValue::Absent),
            Err(e) => Err(e),
        },
        ScalarKind::Number => match decode_opt_number(v) {
            Ok(Some(t)) => Ok(ScalarValue::NumVal(t)),
            Ok(None) => Ok(ScalarValue::Absent),
            Err(e) => Err(e),
        },
        ScalarKind::OptionalText => match decode_opt_text(v) {
            Ok(Some(s)) => Ok(ScalarValue::TextVal(s)),
            Ok(None) => Ok(ScalarValue::Absent),
            Err(e) => Err(e),
        },
    }
}

} // verus!
