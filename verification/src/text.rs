//! Character-level helpers shared by the decoders and the request writer:
//! decimal digits, decimal values of digit strings, and rendering of
//! unsigned numbers as decimal text.

use vstd::prelude::*;

verus! {

/// The ten decimal digit characters.
pub open spec fn is_dec_digit(c: char) -> bool {
    c == '0' || c == '1' || c == '2' || c == '3' || c == '4' || c == '5' || c == '6' || c == '7'
        || c == '8' || c == '9'
}

/// Numeric value of one decimal digit character.
pub open spec fn digit_val(c: char) -> int {
    if c == '0' {
        0
    } else if c == '1' {
        1
    } else if c == '2' {
        2
    } else if c == '3' {
        3
    } else if c == '4' {
        4
    } else if c == '5' {
        5
    } else if c == '6' {
        6
    } else if c == '7' {
        7
    } else if c == '8' {
        8
    } else {
        9
    }
}

/// The decimal digit character for a value below ten.
pub open spec fn digit_char(d: int) -> char {
    if d == 0 {
        '0'
    } else if d == 1 {
        '1'
    } else if d == 2 {
        '2'
    } else if d == 3 {
        '3'
    } else if d == 4 {
        '4'
    } else if d == 5 {
        '5'
    } else if d == 6 {
        '6'
    } else if d == 7 {
        '7'
    } else if d == 8 {
        '8'
    } else {
        '9'
    }
}

pub open spec fn all_dec_digits(s: Seq<char>) -> bool {
    forall|i: int| 0 <= i < s.len() ==> is_dec_digit(#[trigger] s[i])
}

/// Value of a string of decimal digits, most significant first.
pub open spec fn dec_val(s: Seq<char>) -> int
    decreases s.len(),
{
    if s.len() == 0 {
        0
    } else {
        dec_val(s.drop_last()) * 10 + digit_val(s.last())
    }
}

/// Decimal rendering of a non-negative number, without leading zeros.
pub open spec fn render_dec(n: nat) -> Seq<char>
    decreases n,
{
    if n < 10 {
        seq![digit_char(n as int)]
    } else {
        render_dec(n / 10).push(digit_char((n % 10) as int))
    }
}

pub proof fn lemma_render_dec_digits(n: nat)
    ensures
        all_dec_digits(render_dec(n)),
        render_dec(n).len() >= 1,
    decreases n,
{
    if n >= 10 {
        lemma_render_dec_digits(n / 10);
        assert(render_dec(n) == render_dec(n / 10).push(digit_char((n % 10) as int)));
    }
}

/// Rendering then reading a decimal number gives the number back.
pub proof fn lemma_dec_val_render(n: nat)
    ensures
        dec_val(render_dec(n)) == n,
    decreases n,
{
    if n < 10 {
        let r = seq![digit_char(n as int)];
        assert(render_dec(n) == r);
        assert(r.drop_last() == Seq::<char>::empty());
        assert(dec_val(Seq::<char>::empty()) == 0);
        assert(r.last() == digit_char(n as int));
        assert(dec_val(r) == digit_val(digit_char(n as int)));
    } else {
        lemma_dec_val_render(n / 10);
        let r = render_dec(n / 10).push(digit_char((n % 10) as int));
        assert(r.drop_last() == render_dec(n / 10));
        assert(dec_val(r) == dec_val(render_dec(n / 10)) * 10 + digit_val(
            digit_char((n % 10) as int),
        ));
    }
}

pub proof fn lemma_dec_val_nonneg(s: Seq<char>)
    requires
        all_dec_digits(s),
    ensures
        dec_val(s) >= 0,
    decreases s.len(),
{
    if s.len() > 0 {
        assert(all_dec_digits(s.drop_last())) by {
            assert(forall|i: int|
                0 <= i < s.len() - 1 ==> is_dec_digit(#[trigger] s.drop_last()[i]) == is_dec_digit(
                    s[i],
                ));
        }
        lemma_dec_val_nonneg(s.drop_last());
    }
}

/// The value of a digit string is at least the value of any of its prefixes.
pub proof fn lemma_dec_val_prefix(s: Seq<char>, i: int)
    requires
        all_dec_digits(s),
        0 <= i <= s.len(),
    ensures
        dec_val(s.take(i)) <= dec_val(s),
    decreases s.len() - i,
{
    if i < s.len() {
        lemma_dec_val_prefix(s, i + 1);
        let t = s.take(i + 1);
        assert(t.drop_last() == s.take(i));
        assert(all_dec_digits(s.take(i))) by {
            assert(forall|k: int| 0 <= k < i ==> #[trigger] s.take(i)[k] == s[k]);
        }
        lemma_dec_val_nonneg(s.take(i));
        assert(dec_val(t) == dec_val(s.take(i)) * 10 + digit_val(t.last()));
        assert(digit_val(t.last()) >= 0);
        assert(dec_val(s.take(i)) * 10 >= dec_val(s.take(i)));
    } else {
        assert(s.take(i) == s);
    }
}

/// Exec test for a decimal digit character.
pub fn is_dec_digit_char(c: char) -> (r: bool)
    ensures
        r == is_dec_digit(c),
{
    match c {
        '0' | '1' | '2' | '3' | '4' | '5' | '6' | '7' | '8' | '9' => true,
        _ => false,
    }
}

/// Exec value of one decimal digit character.
pub fn digit_of(c: char) -> (r: u8)
    requires
        is_dec_digit(c),
    ensures
        r == digit_val(c),
        r <= 9,
{
    match c {
        '0' => 0,
        '1' => 1,
        '2' => 2,
        '3' => 3,
        '4' => 4,
        '5' => 5,
        '6' => 6,
        '7' => 7,
        '8' => 8,
        _ => 9,
    }
}

/// Exec digit character for a value below ten.
pub fn char_of_digit(d: u8) -> (r: char)
    requires
        d <= 9,
    ensures
        r == digit_char(d as int),
{
    match d {
        0 => '0',
        1 => '1',
        2 => '2',
        3 => '3',
        4 => '4',
        5 => '5',
        6 => '6',
        7 => '7',
        8 => '8',
        _ => '9',
    }
}

/// Character-by-character string comparison.
pub fn str_eq_chars(a: &str, b: &str) -> (r: bool)
    ensures
        r == (a@ == b@),
{
    let na = a.unicode_len();
    let nb = b.unicode_len();
    if na != nb {
        return false;
    }
    let mut i: usize = 0;
    while i < na
        invariant
            0 <= i <= na,
            na == a@.len(),
            na == b@.len(),
            forall|k: int| 0 <= k < i ==> a@[k] == b@[k],
        decreases na - i,
    {
        if a.get_char(i) != b.get_char(i) {
            return false;
        }
        i += 1;
    }
    proof {
        assert(a@ =~= b@);
    }
    true
}

/// Relies on std's String::push: appends exactly the given character.
#[verifier::external_body]
pub fn push_char(s: &mut String, c: char)
    ensures
        final(s)@ == old(s)@.push(c),
{
    s.push(c);
}

/// Decimal rendering of a u16, without leading zeros: digits whose value
/// reads back as the number.
pub fn render_u16(n: u16) -> (r: String)
    ensures
        r@ == render_dec(n as nat),
        all_dec_digits(r@),
        dec_val(r@) == n,
    decreases n,
{
    proof {
        lemma_render_dec_digits(n as nat);
        lemma_dec_val_render(n as nat);
    }
    if n < 10 {
        let mut s = String::new();
        push_char(&mut s, char_of_digit(n as u8));
        proof {
            assert(s@ == seq![digit_char(n as int)]);
        }
        s
    } else {
        let mut s = render_u16(n / 10);
        push_char(&mut s, char_of_digit((n % 10) as u8));
        s
    }
}

} // verus!
