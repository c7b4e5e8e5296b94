//! Verified JSON text writing for request bodies.
//!
//! The writers produce exactly the compact rendering the wire expects: no
//! whitespace, string values escaped, fields in declaration order, absent
//! optional fields omitted.

use vstd::prelude::*;

use crate::text::push_char;

verus! {

pub open spec fn hex_digit_char(d: int) -> char {
    if d == 0 {
        '0'
    } else if d == 1 {
        '1'
    } else if d == 2 {
        '2'
    } else if d == 3 {
        '3'
    } else if d == 4 {
        '4'
    } else if d == 5 {
        '5'
    } else if d == 6 {
        '6'
    } else if d == 7 {
        '7'
    } else if d == 8 {
        '8'
    } else if d == 9 {
        '9'
    } else if d == 10 {
        'a'
    } else if d == 11 {
        'b'
    } else if d == 12 {
        'c'
    } else if d == 13 {
        'd'
    } else if d == 14 {
        'e'
    } else {
        'f'
    }
}

fn hex_digit_char_exec(d: u32) -> (r: char)
    requires
        d <= 15,
    ensures
        r == hex_digit_char(d as int),
{
    match d {
        0 => '0',
        1 => '1',
        2 => '2',
        3 => '3',
        4 => '4',
        5 => '5',
        6 => '6',
        7 => '7',
        8 => '8',
        9 => '9',
        10 => 'a',
        11 => 'b',
        12 => 'c',
        13 => 'd',
        14 => 'e',
        _ => 'f',
    }
}

/// How one character is written inside a JSON string literal: quote and
/// backslash get a backslash, the five short control escapes their letter,
/// any other control character a four-digit hex escape, and everything
/// else stands as itself.
pub open spec fn esc_char(c: char) -> Seq<char> {
    if c == '"' {
        seq!['\\', '"']
    } else if c == '\\' {
        seq!['\\', '\\']
    } else if c == '\u{8}' {
        seq!['\\', 'b']
    } else if c == '\u{c}' {
        seq!['\\', 'f']
    } else if c == '\n' {
        seq!['\\', 'n']
    } else if c == '\r' {
        seq!['\\', 'r']
    } else if c == '\t' {
        seq!['\\', 't']
    } else if (c as u32) < 0x20 {
        seq![
            '\\',
            'u',
            '0',
            '0',
            hex_digit_char((c as u32) as int / 16),
            hex_digit_char((c as u32) as int % 16),
        ]
    } else {
        seq![c]
    }
}

pub open spec fn spec_escape(s: Seq<char>) -> Seq<char>
    decreases s.len(),
{
    if s.len() == 0 {
        Seq::empty()
    } else {
        spec_escape(s.drop_last()) + esc_char(s.last())
    }
}

/// A string as it stands in JSON text: quoted and escaped.
pub open spec fn json_quoted(s: Seq<char>) -> Seq<char> {
    seq!['"'] + spec_escape(s) + seq!['"']
}

fn push_escaped_char(out: &mut String, c: char)
    ensures
        final(out)@ == old(out)@ + esc_char(c),
{
    if c == '"' {
        push_char(out, '\\');
        push_char(out, '"');
        proof {
            assert(final(out)@ =~= old(out)@ + esc_char(c));
        }
    } else if c == '\\' {
        push_char(out, '\\');
        push_char(out, '\\');
        proof {
            assert(final(out)@ =~= old(out)@ + esc_char(c));
        }
    } else if c == '\u{8}' {
        push_char(out, '\\');
        push_char(out, 'b');
        proof {
            assert(final(out)@ =~= old(out)@ + esc_char(c));
        }
    } else if c == '\u{c}' {
        push_char(out, '\\');
        push_char(out, 'f');
        proof {
            assert(final(out)@ =~= old(out)@ + esc_char(c));
        }
    } else if c == '\n' {
        push_char(out, '\\');
        push_char(out, 'n');
        proof {
            assert(final(out)@ =~= old(out)@ + esc_char(c));
        }
    } else if c == '\r' {
        push_char(out, '\\');
        push_char(out, 'r');
        proof {
            assert(final(out)@ =~= old(out)@ + esc_char(c));
        }
    } else if c == '\t' {
        push_char(out, '\\');
        push_char(out, 't');
        proof {
            assert(final(out)@ =~= old(out)@ + esc_char(c));
        }
    } else if (c as u32) < 0x20 {
        push_char(out, '\\');
        push_char(out, 'u');
        push_char(out, '0');
        push_char(out, '0');
        push_char(out, hex_digit_char_exec((c as u32) / 16));
        push_char(out, hex_digit_char_exec((c as u32) % 16));
        proof {
            assert(final(out)@ =~= old(out)@ + esc_char(c));
        }
    } else {
        push_char(out, c);
        proof {
            assert(final(out)@ =~= old(out)@ + esc_char(c));
        }
    }
}

/// Appends the escaped content of `s`.
pub fn push_escaped(out: &mut String, s: &str)
    ensures
        final(out)@ == old(out)@ + spec_escape(s@),
{
    let n = s.unicode_len();
    let mut i: usize = 0;
    while i < n
        invariant
            0 <= i <= n,
            n == s@.len(),
            out@ == old(out)@ + spec_escape(s@.take(i as int)),
        decreases n - i,
    {
        let c = s.get_char(i);
        push_escaped_char(out, c);
        i += 1;
        proof {
            assert(s@.take(i as int).drop_last() == s@.take(i - 1));
            assert(s@.take(i as int).last() == s@[i - 1]);
            assert(out@ =~= old(out)@ + spec_escape(s@.take(i as int)));
        }
    }
    proof {
        assert(s@.take(n as int) == s@);
    }
}

/// Appends `s` as a JSON string literal.
pub fn push_quoted(out: &mut String, s: &str)
    ensures
        final(out)@ == old(out)@ + json_quoted(s@),
{
    push_char(out, '"');
    push_escaped(out, s);
    push_char(out, '"');
    proof {
        assert(final(out)@ =~= old(out)@ + json_quoted(s@));
    }
}

/// Appends already-rendered text as it stands.
pub fn push_text(out: &mut String, s: &str)
    ensures
        final(out)@ == old(out)@ + s@,
{
    out.append(s);
}

// ---------------------------------------------------------------------------
// Objects
// ---------------------------------------------------------------------------

/// One written field: its name and its already-rendered value text.
pub open spec fn field_piece(name: Seq<char>, value: Seq<char>) -> Seq<char> {
    json_quoted(name) + seq![':'] + value
}

/// Comma-joined rendering of the written fields, in order.
pub open spec fn join_fields(ps: Seq<(Seq<char>, Seq<char>)>) -> Seq<char>
    decreases ps.len(),
{
    if ps.len() == 0 {
        Seq::empty()
    } else if ps.len() == 1 {
        field_piece(ps[0].0, ps[0].1)
    } else {
        join_fields(ps.drop_last()) + seq![','] + field_piece(ps.last().0, ps.last().1)
    }
}

/// A whole object: braces around the joined fields.
pub open spec fn json_object(ps: Seq<(Seq<char>, Seq<char>)>) -> Seq<char> {
    seq!['{'] + join_fields(ps) + seq!['}']
}

/// An optional field's contribution: one piece when set, nothing when
/// absent.
pub open spec fn opt_piece(name: Seq<char>, v: Option<Seq<char>>) -> Seq<(Seq<char>, Seq<char>)> {
    match v {
        Some(t) => seq![(name, t)],
        None => Seq::empty(),
    }
}

/// Writes one JSON object, field by field, in call order.
pub struct ObjWriter {
    out: String,
    first: bool,
    pieces: Ghost<Seq<(Seq<char>, Seq<char>)>>,
}

impl ObjWriter {
    pub closed spec fn pieces(&self) -> Seq<(Seq<char>, Seq<char>)> {
        self.pieces@
    }

    pub closed spec fn wf(&self) -> bool {
        self.out@ == seq!['{'] + join_fields(self.pieces@) && (self.first <==> self.pieces@.len()
            == 0)
    }

    pub fn new() -> (r: ObjWriter)
        ensures
            r.wf(),
            r.pieces() == Seq::<(Seq<char>, Seq<char>)>::empty(),
    {
        let mut out = String::new();
        push_char(&mut out, '{');
        let r = ObjWriter { out, first: true, pieces: Ghost(Seq::empty()) };
        proof {
            assert(r.out@ =~= seq!['{'] + join_fields(r.pieces@));
        }
        r
    }

    fn push_field_value_start(&mut self, name: &str)
        requires
            old(self).wf(),
        ensures
            final(self).out@ == old(self).out@ + (if old(self).pieces@.len() == 0 {
                Seq::empty()
            } else {
                seq![',']
            }) + json_quoted(name@) + seq![':'],
            final(self).first == old(self).first,
            final(self).pieces@ == old(self).pieces@,
    {
        if !self.first {
            push_char(&mut self.out, ',');
        }
        push_quoted(&mut self.out, name);
        push_char(&mut self.out, ':');
        proof {
            assert(final(self).out@ =~= old(self).out@ + (if old(self).pieces@.len() == 0 {
                Seq::<char>::empty()
            } else {
                seq![',']
            }) + json_quoted(name@) + seq![':']);
        }
    }

    /// Writes a field whose value is a string literal.
    pub fn field_quoted(&mut self, name: &str, value: &str)
        requires
            old(self).wf(),
        ensures
            final(self).wf(),
            final(self).pieces() == old(self).pieces().push((name@, json_quoted(value@))),
    {
        self.push_field_value_start(name);
        push_quoted(&mut self.out, value);
        self.pieces = Ghost(old(self).pieces@.push((name@, json_quoted(value@))));
        self.first = false;
        proof {
            lemma_join_fields_push(old(self).pieces@, name@, json_quoted(value@));
            assert(self.out@ =~= seq!['{'] + join_fields(self.pieces@));
        }
    }

    /// Writes a field whose value text is already rendered JSON: a number,
    /// a nested object or array.
    pub fn field_raw(&mut self, name: &str, value: &str)
        requires
            old(self).wf(),
        ensures
            final(self).wf(),
            final(self).pieces() == old(self).pieces().push((name@, value@)),
    {
        self.push_field_value_start(name);
        push_text(&mut self.out, value);
        self.pieces = Ghost(old(self).pieces@.push((name@, value@)));
        self.first = false;
        proof {
            lemma_join_fields_push(old(self).pieces@, name@, value@);
            assert(self.out@ =~= seq!['{'] + join_fields(self.pieces@));
        }
    }

    /// Closes the object and hands the text out.
    pub fn finish(self) -> (r: String)
        requires
            self.wf(),
        ensures
            r@ == json_object(self.pieces()),
    {
        let ObjWriter { mut out, first: _, pieces } = self;
        push_char(&mut out, '}');
        proof {
            assert(out@ =~= json_object(pieces@));
        }
        out
    }
}

proof fn lemma_join_fields_push(ps: Seq<(Seq<char>, Seq<char>)>, name: Seq<char>, value: Seq<char>)
    ensures
        join_fields(ps.push((name, value))) == join_fields(ps) + (if ps.len() == 0 {
            Seq::<char>::empty()
        } else {
            seq![',']
        }) + field_piece(name, value),
{
    let q = ps.push((name, value));
    assert(q.drop_last() == ps);
    assert(q.last() == (name, value));
    if ps.len() == 0 {
        assert(q.len() == 1);
        assert(q[0] == (name, value));
        assert(join_fields(q) =~= join_fields(ps) + Seq::<char>::empty() + field_piece(
            name,
            value,
        ));
    } else {
        assert(join_fields(q) =~= join_fields(ps) + seq![','] + field_piece(name, value));
    }
}

// ---------------------------------------------------------------------------
// Arrays
// ---------------------------------------------------------------------------

/// Comma-joined rendering of already-rendered items, in order.
pub open spec fn join_items(items: Seq<Seq<char>>) -> Seq<char>
    decreases items.len(),
{
    if items.len() == 0 {
        Seq::empty()
    } else if items.len() == 1 {
        items[0]
    } else {
        join_items(items.drop_last()) + seq![','] + items.last()
    }
}

/// A whole array: brackets around the joined items.
pub open spec fn json_array(items: Seq<Seq<char>>) -> Seq<char> {
    seq!['['] + join_items(items) + seq![']']
}

/// Writes one JSON array, item by item, in call order.
pub struct ArrWriter {
    out: String,
    first: bool,
    items: Ghost<Seq<Seq<char>>>,
}

impl ArrWriter {
    pub closed spec fn items(&self) -> Seq<Seq<char>> {
        self.items@
    }

    pub closed spec fn wf(&self) -> bool {
        self.out@ == seq!['['] + join_items(self.items@) && (self.first <==> self.items@.len()
            == 0)
    }

    pub fn new() -> (r: ArrWriter)
        ensures
            r.wf(),
            r.items() == Seq::<Seq<char>>::empty(),
    {
        let mut out = String::new();
        push_char(&mut out, '[');
        let r = ArrWriter { out, first: true, items: Ghost(Seq::empty()) };
        proof {
            assert(r.out@ =~= seq!['['] + join_items(r.items@));
        }
        r
    }

    /// Appends one already-rendered item.
    pub fn item_raw(&mut self, value: &str)
        requires
            old(self).wf(),
        ensures
            final(self).wf(),
            final(self).items() == old(self).items().push(value@),
    {
        if !self.first {
            push_char(&mut self.out, ',');
        }
        push_text(&mut self.out, value);
        self.items = Ghost(old(self).items@.push(value@));
        self.first = false;
        proof {
            lemma_join_items_push(old(self).items@, value@);
            assert(self.out@ =~= seq!['['] + join_items(self.items@));
        }
    }

    /// Closes the array and hands the text out.
    pub fn finish(self) -> (r: String)
        requires
            self.wf(),
        ensures
            r@ == json_array(self.items()),
    {
        let ArrWriter { mut out, first: _, items } = self;
        push_char(&mut out, ']');
        proof {
            assert(out@ =~= json_array(items@));
        }
        out
    }
}

proof fn lemma_join_items_push(items: Seq<Seq<char>>, value: Seq<char>)
    ensures
        join_items(items.push(value)) == join_items(items) + (if items.len() == 0 {
            Seq::<char>::empty()
        } else {
            seq![',']
        }) + value,
{
    let q = items.push(value);
    assert(q.drop_last() == items);
    assert(q.last() == value);
    if items.len() == 0 {
        assert(q.len() == 1);
        assert(q[0] == value);
        assert(join_items(q) =~= join_items(items) + Seq::<char>::empty() + value);
    } else {
        assert(join_items(q) =~= join_items(items) + seq![','] + value);
    }
}

} // verus!
