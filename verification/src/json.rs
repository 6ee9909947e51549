//! Verified JSON rendering.
//!
//! The envelope is a cross-language wire contract, so the exact character
//! sequence matters: compact form (no whitespace), fields in a fixed
//! order, null fields emitted as `null`, and string escaping identical to
//! the common JSON writers (`\"`, `\\`, `\b`, `\t`, `\n`, `\f`, `\r`, and
//! `\u00XX` for the remaining control characters).
//!
//! The payloads this gateway emits are flat, so the value model is a
//! scalar (null, boolean, unsigned integer, string, or array of strings)
//! and an object is a sequence of scalar fields in insertion order. The
//! rendering is specified over the ghost views of these types.

use vstd::prelude::*;

use crate::text::{spec_dec, u64_to_string};

verus! {

/// A flat JSON value: everything an event payload's field can hold.
#[derive(Debug, Clone)]
pub enum JsonScalar {
    Null,
    Bool(bool),
    UInt(u64),
    Str(String),
    StrArray(Vec<String>),
}

/// One `"key":value` pair of a JSON object.
#[derive(Debug, Clone)]
pub struct JsonField {
    pub key: String,
    pub value: JsonScalar,
}

/// The mathematical value of a `JsonScalar`.
#[verifier::ext_equal]
pub enum ScalarView {
    Null,
    Bool(bool),
    UInt(u64),
    Str(Seq<char>),
    StrArray(Seq<Seq<char>>),
}

/// The mathematical value of a `JsonField`.
#[verifier::ext_equal]
pub struct FieldView {
    pub key: Seq<char>,
    pub value: ScalarView,
}

impl View for JsonScalar {
    type V = ScalarView;

    open spec fn view(&self) -> ScalarView {
        match self {
            JsonScalar::Null => ScalarView::Null,
            JsonScalar::Bool(b) => ScalarView::Bool(*b),
            JsonScalar::UInt(n) => ScalarView::UInt(*n),
            JsonScalar::Str(s) => ScalarView::Str(s@),
            JsonScalar::StrArray(a) => ScalarView::StrArray(
                a@.map_values(|s: String| s@),
            ),
        }
    }
}

impl View for JsonField {
    type V = FieldView;

    open spec fn view(&self) -> FieldView {
        FieldView { key: self.key@, value: self.value@ }
    }
}

/// The lowercase hexadecimal digit for `d`.
pub open spec fn spec_hex_char(d: int) -> char
    recommends
        0 <= d < 16,
{
    if d == 0 { '0' }
    else if d == 1 { '1' }
    else if d == 2 { '2' }
    else if d == 3 { '3' }
    else if d == 4 { '4' }
    else if d == 5 { '5' }
    else if d == 6 { '6' }
    else if d == 7 { '7' }
    else if d == 8 { '8' }
    else if d == 9 { '9' }
    else if d == 10 { 'a' }
    else if d == 11 { 'b' }
    else if d == 12 { 'c' }
    else if d == 13 { 'd' }
    else if d == 14 { 'e' }
    else { 'f' }
}

/// Whether a character cannot stand bare in a JSON string literal.
pub open spec fn spec_must_escape(c: char) -> bool {
    c == '"' || c == '\\' || (c as u32) < 32
}

/// The escape of one character inside a JSON string literal.
pub open spec fn spec_esc_char(c: char) -> Seq<char> {
    if c == '"' { seq!['\\', '"'] }
    else if c == '\\' { seq!['\\', '\\'] }
    else if c == '\u{8}' { seq!['\\', 'b'] }
    else if c == '\u{9}' { seq!['\\', 't'] }
    else if c == '\u{A}' { seq!['\\', 'n'] }
    else if c == '\u{C}' { seq!['\\', 'f'] }
    else if c == '\u{D}' { seq!['\\', 'r'] }
    else if (c as u32) < 32 {
        seq!['\\', 'u', '0', '0', spec_hex_char(c as u32 as int / 16), spec_hex_char(
            c as u32 as int % 16,
        )]
    } else {
        seq![c]
    }
}

/// The body of a JSON string literal: every character escaped.
pub open spec fn spec_esc(s: Seq<char>) -> Seq<char>
    decreases s.len(),
{
    if s.len() == 0 {
        Seq::empty()
    } else {
        spec_esc(s.drop_last()) + spec_esc_char(s.last())
    }
}

/// A JSON string literal: the escaped body between double quotes.
pub open spec fn spec_quoted(s: Seq<char>) -> Seq<char> {
    seq!['"'] + spec_esc(s) + seq!['"']
}

/// The comma-separated string literals inside a JSON array of strings.
pub open spec fn spec_str_items(a: Seq<Seq<char>>) -> Seq<char>
    decreases a.len(),
{
    if a.len() == 0 {
        Seq::empty()
    } else {
        spec_str_items(a.drop_last()) + (if a.len() == 1 { Seq::<char>::empty() } else { seq![','] })
            + spec_quoted(a.last())
    }
}

/// The rendering of one scalar value.
pub open spec fn spec_scalar(v: ScalarView) -> Seq<char> {
    match v {
        ScalarView::Null => "null"@,
        ScalarView::Bool(b) => if b { "true"@ } else { "false"@ },
        ScalarView::UInt(n) => spec_dec(n as int),
        ScalarView::Str(s) => spec_quoted(s),
        ScalarView::StrArray(a) => seq!['['] + spec_str_items(a) + seq![']'],
    }
}

/// The comma-separated `"key":value` pairs inside a JSON object.
pub open spec fn spec_fields(fs: Seq<FieldView>) -> Seq<char>
    decreases fs.len(),
{
    if fs.len() == 0 {
        Seq::empty()
    } else {
        spec_fields(fs.drop_last()) + (if fs.len() == 1 { Seq::<char>::empty() } else { seq![','] })
            + spec_quoted(fs.last().key) + seq![':'] + spec_scalar(fs.last().value)
    }
}

/// A JSON object with the given fields, in order.
pub open spec fn spec_object(fs: Seq<FieldView>) -> Seq<char> {
    seq!['{'] + spec_fields(fs) + seq!['}']
}

fn hex_str(d: u32) -> (r: &'static str)
    requires
        d < 16,
    ensures
        r@ =~= seq![spec_hex_char(d as int)],
{
    proof {
        reveal_strlit("0");
        reveal_strlit("1");
        reveal_strlit("2");
        reveal_strlit("3");
        reveal_strlit("4");
        reveal_strlit("5");
        reveal_strlit("6");
        reveal_strlit("7");
        reveal_strlit("8");
        reveal_strlit("9");
        reveal_strlit("a");
        reveal_strlit("b");
        reveal_strlit("c");
        reveal_strlit("d");
        reveal_strlit("e");
        reveal_strlit("f");
    }
    match d {
        0 => "0",
        1 => "1",
        2 => "2",
        3 => "3",
        4 => "4",
        5 => "5",
        6 => "6",
        7 => "7",
        8 => "8",
        9 => "9",
        10 => "a",
        11 => "b",
        12 => "c",
        13 => "d",
        14 => "e",
        _ => "f",
    }
}

fn must_escape(c: char) -> (r: bool)
    ensures
        r == spec_must_escape(c),
{
    c == '"' || c == '\\' || (c as u32) < 32
}

fn append_esc_char(out: &mut String, c: char)
    requires
        spec_must_escape(c),
    ensures
        final(out)@ == old(out)@ + spec_esc_char(c),
{
    proof {
        reveal_strlit("\\\"");
        reveal_strlit("\\\\");
        reveal_strlit("\\b");
        reveal_strlit("\\t");
        reveal_strlit("\\n");
        reveal_strlit("\\f");
        reveal_strlit("\\r");
        reveal_strlit("\\u00");
    }
    if c == '"' {
        out.append("\\\"");
    } else if c == '\\' {
        out.append("\\\\");
    } else if c == '\u{8}' {
        out.append("\\b");
    } else if c == '\u{9}' {
        out.append("\\t");
    } else if c == '\u{A}' {
        out.append("\\n");
    } else if c == '\u{C}' {
        out.append("\\f");
    } else if c == '\u{D}' {
        out.append("\\r");
    } else {
        let code = c as u32;
        out.append("\\u00");
        out.append(hex_str(code / 16));
        out.append(hex_str(code % 16));
        proof {
            assert(out@ =~= old(out)@ + spec_esc_char(c));
        }
    }
}

/// Append the escaped body of `t` to `out`.
fn append_esc(out: &mut String, t: &str)
    ensures
        final(out)@ == old(out)@ + spec_esc(t@),
{
    let ghost init = out@;
    let n = t.unicode_len();
    let mut i: usize = 0;
    while i < n
        invariant
            n == t@.len(),
            i <= n,
            out@ == init + spec_esc(t@.subrange(0, i as int)),
        decreases n - i,
    {
        let c = t.get_char(i);
        if must_escape(c) {
            append_esc_char(out, c);
        } else {
            let piece = t.substring_char(i, i + 1);
            out.append(piece);
            proof {
                assert(piece@ =~= seq![c]);
                assert(spec_esc_char(c) == seq![c]);
            }
        }
        proof {
            assert(t@.subrange(0, i as int + 1).drop_last() =~= t@.subrange(0, i as int));
            assert(t@.subrange(0, i as int + 1).last() == t@[i as int]);
        }
        i += 1;
    }
    proof {
        assert(t@.subrange(0, n as int) =~= t@);
    }
}

/// Append the JSON string literal for `t` to `out`.
pub fn append_quoted(out: &mut String, t: &str)
    ensures
        final(out)@ == old(out)@ + spec_quoted(t@),
{
    proof {
        reveal_strlit("\"");
    }
    out.append("\"");
    append_esc(out, t);
    out.append("\"");
    proof {
        assert(out@ =~= old(out)@ + spec_quoted(t@));
    }
}

/// Append the rendering of one scalar to `out`.
pub fn append_scalar(out: &mut String, v: &JsonScalar)
    ensures
        final(out)@ == old(out)@ + spec_scalar(v@),
{
    match v {
        JsonScalar::Null => out.append("null"),
        JsonScalar::Bool(b) => {
            if *b {
                out.append("true")
            } else {
                out.append("false")
            }
        },
        JsonScalar::UInt(n) => {
            let s = u64_to_string(*n);
            out.append(s.as_str());
        },
        JsonScalar::Str(s) => append_quoted(out, s.as_str()),
        JsonScalar::StrArray(a) => {
            proof {
                reveal_strlit("[");
                reveal_strlit("]");
            }
            let ghost av: Seq<Seq<char>> = a@.map_values(|s: String| s@);
            let ghost init = out@;
            out.append("[");
            let n = a.len();
            let mut i: usize = 0;
            while i < n
                invariant
                    n == a@.len(),
                    av == a@.map_values(|s: String| s@),
                    i <= n,
                    out@ == init + seq!['['] + spec_str_items(av.subrange(0, i as int)),
                decreases n - i,
            {
                if i > 0 {
                    proof {
                        reveal_strlit(",");
                    }
                    out.append(",");
                }
                append_quoted(out, a[i].as_str());
                proof {
                    assert(av.subrange(0, i as int + 1).drop_last() =~= av.subrange(0, i as int));
                    assert(av.subrange(0, i as int + 1).last() == av[i as int]);
                    assert(av[i as int] == a@[i as int]@);
                }
                i += 1;
            }
            out.append("]");
            proof {
                assert(av.subrange(0, n as int) =~= av);
                assert(out@ =~= old(out)@ + spec_scalar(v@));
            }
        },
    }
}

/// Append the `"key":value` pairs of `fs`, comma-separated, to `out`.
pub fn append_fields(out: &mut String, fs: &Vec<JsonField>)
    ensures
        final(out)@ == old(out)@ + spec_fields(fs@.map_values(|f: JsonField| f@)),
{
    let ghost fsv: Seq<FieldView> = fs@.map_values(|f: JsonField| f@);
    let ghost init = out@;
    let n = fs.len();
    let mut i: usize = 0;
    while i < n
        invariant
            n == fs@.len(),
            fsv == fs@.map_values(|f: JsonField| f@),
            i <= n,
            out@ == init + spec_fields(fsv.subrange(0, i as int)),
        decreases n - i,
    {
        if i > 0 {
            proof {
                reveal_strlit(",");
            }
            out.append(",");
        }
        let f = &fs[i];
        append_quoted(out, f.key.as_str());
        proof {
            reveal_strlit(":");
        }
        out.append(":");
        append_scalar(out, &f.value);
        proof {
            assert(fsv.subrange(0, i as int + 1).drop_last() =~= fsv.subrange(0, i as int));
            assert(fsv.subrange(0, i as int + 1).last() == fsv[i as int]);
            assert(fsv[i as int] == fs@[i as int]@);
        }
        i += 1;
    }
    proof {
        assert(fsv.subrange(0, n as int) =~= fsv);
    }
}

/// Render a JSON object with the given fields, in order.
pub fn object_string(fs: &Vec<JsonField>) -> (r: String)
    ensures
        r@ == spec_object(fs@.map_values(|f: JsonField| f@)),
{
    proof {
        reveal_strlit("{");
        reveal_strlit("}");
    }
    let mut out = String::from_str("{");
    append_fields(&mut out, fs);
    out.append("}");
    proof {
        assert(out@ =~= spec_object(fs@.map_values(|f: JsonField| f@)));
    }
    out
}

} // verus!
