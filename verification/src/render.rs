//! A verified JSON renderer for the canonical object-form encoding.
//!
//! The output is pinned down character by character by `spec_render_json`:
//! objects keep their field order, strings are escaped as JSON asks, and
//! numbers are written as decimal integers or — for a number kept as its
//! wire token — verbatim. Nothing here is trusted; the renderer is ordinary
//! verified code.
use vstd::prelude::*;
use vstd::string::StringExecFns;

use crate::json::{json_view, json_view_fields, json_view_seq, JsonNumber, JsonV, JsonValue,
    NumberV};
use crate::text::{append_i64, append_u64, spec_dec_int, spec_dec_nat, spec_digit};

verus! {

broadcast use vstd::std_specs::vec::group_vec_axioms;

/// The character for one hexadecimal digit (lower case).
pub open spec fn spec_hex_digit(d: nat) -> char {
    if d < 10 {
        spec_digit(d)
    } else if d == 10 {
        'a'
    } else if d == 11 {
        'b'
    } else if d == 12 {
        'c'
    } else if d == 13 {
        'd'
    } else if d == 14 {
        'e'
    } else {
        'f'
    }
}

/// How one character is written inside a JSON string: quotes and backslashes
/// are escaped, the common control characters get their short escapes, any
/// other control character a `\\u00XX` escape, and everything else stands
/// as itself.
pub open spec fn spec_escape_char(c: char) -> Seq<char> {
    if c == '"' {
        seq!['\\', '"']
    } else if c == '\\' {
        seq!['\\', '\\']
    } else if c == '\n' {
        seq!['\\', 'n']
    } else if c == '\r' {
        seq!['\\', 'r']
    } else if c == '\t' {
        seq!['\\', 't']
    } else if (c as u32) < 32 {
        seq!['\\', 'u', '0', '0', spec_hex_digit((c as u32 / 16) as nat), spec_hex_digit(
            (c as u32 % 16) as nat,
        )]
    } else {
        seq![c]
    }
}

/// A whole string body, escaped.
pub open spec fn spec_escape(s: Seq<char>) -> Seq<char>
    decreases s.len(),
{
    if s.len() == 0 {
        Seq::empty()
    } else {
        spec_escape_char(s[0]) + spec_escape(s.drop_first())
    }
}

/// The text of a JSON number: decimal digits for the integer forms, the
/// wire token verbatim for the textual form.
pub open spec fn spec_render_num(n: NumberV) -> Seq<char> {
    match n {
        NumberV::Uint(u) => spec_dec_nat(u as nat),
        NumberV::Int(i) => spec_dec_int(i as int),
        NumberV::Text(t) => t,
    }
}

/// The exact text a JSON tree renders to.
pub open spec fn spec_render_json(v: JsonV) -> Seq<char>
    decreases v,
{
    match v {
        JsonV::Null => "null"@,
        JsonV::Bool(b) => if b {
            "true"@
        } else {
            "false"@
        },
        JsonV::Num(n) => spec_render_num(n),
        JsonV::Str(s) => seq!['"'] + spec_escape(s) + seq!['"'],
        JsonV::Arr(a) => seq!['['] + spec_render_items(a) + seq![']'],
        JsonV::Obj(o) => seq!['{'] + spec_render_fields(o) + seq!['}'],
    }
}

/// Comma-separated renderings of an array's elements.
pub open spec fn spec_render_items(a: Seq<JsonV>) -> Seq<char>
    decreases a,
{
    if a.len() == 0 {
        Seq::empty()
    } else if a.len() == 1 {
        spec_render_json(a[0])
    } else {
        spec_render_json(a[0]) + seq![','] + spec_render_items(a.drop_first())
    }
}

/// Comma-separated `"key":value` renderings of an object's fields, in field
/// order.
pub open spec fn spec_render_fields(o: Seq<(Seq<char>, JsonV)>) -> Seq<char>
    decreases o,
{
    if o.len() == 0 {
        Seq::empty()
    } else if o.len() == 1 {
        spec_render_field(o[0])
    } else {
        spec_render_field(o[0]) + seq![','] + spec_render_fields(o.drop_first())
    }
}

pub open spec fn spec_render_field(f: (Seq<char>, JsonV)) -> Seq<char>
    decreases f,
{
    seq!['"'] + spec_escape(f.0) + seq!['"', ':'] + spec_render_json(f.1)
}

proof fn lemma_escape_snoc(s: Seq<char>, c: char)
    ensures
        spec_escape(s.push(c)) == spec_escape(s) + spec_escape_char(c),
    decreases s.len(),
{
    if s.len() == 0 {
        reveal_with_fuel(spec_escape, 2);
        assert(s.push(c)[0] == c);
        assert(s.push(c).drop_first() =~= Seq::<char>::empty());
        assert(spec_escape(s.push(c)) =~= spec_escape(s) + spec_escape_char(c));
    } else {
        assert(s.push(c)[0] == s[0]);
        assert(s.push(c).drop_first() =~= s.drop_first().push(c));
        lemma_escape_snoc(s.drop_first(), c);
        assert(spec_escape(s.push(c)) =~= spec_escape(s) + spec_escape_char(c));
    }
}

proof fn lemma_render_items_snoc(a: Seq<JsonV>, x: JsonV)
    ensures
        spec_render_items(a.push(x)) == if a.len() == 0 {
            spec_render_json(x)
        } else {
            spec_render_items(a) + seq![','] + spec_render_json(x)
        },
    decreases a.len(),
{
    if a.len() == 0 {
        assert(a.push(x)[0] == x);
    } else {
        assert(a.push(x)[0] == a[0]);
        assert(a.push(x).drop_first() =~= a.drop_first().push(x));
        lemma_render_items_snoc(a.drop_first(), x);
        assert(spec_render_items(a.push(x)) =~= spec_render_items(a) + seq![',']
            + spec_render_json(x));
    }
}

proof fn lemma_render_fields_snoc(o: Seq<(Seq<char>, JsonV)>, x: (Seq<char>, JsonV))
    ensures
        spec_render_fields(o.push(x)) == if o.len() == 0 {
            spec_render_field(x)
        } else {
            spec_render_fields(o) + seq![','] + spec_render_field(x)
        },
    decreases o.len(),
{
    if o.len() == 0 {
        assert(o.push(x)[0] == x);
    } else {
        assert(o.push(x)[0] == o[0]);
        assert(o.push(x).drop_first() =~= o.drop_first().push(x));
        lemma_render_fields_snoc(o.drop_first(), x);
        assert(spec_render_fields(o.push(x)) =~= spec_render_fields(o) + seq![',']
            + spec_render_field(x));
    }
}

fn push_hex_digit(out: &mut String, d: u32)
    requires
        d < 16,
    ensures
        final(out)@ == old(out)@ + seq![spec_hex_digit(d as nat)],
{
    if d == 10 {
        out.push('a');
    } else if d == 11 {
        out.push('b');
    } else if d == 12 {
        out.push('c');
    } else if d == 13 {
        out.push('d');
    } else if d == 14 {
        out.push('e');
    } else if d == 15 {
        out.push('f');
    } else if d == 0 {
        out.push('0');
    } else if d == 1 {
        out.push('1');
    } else if d == 2 {
        out.push('2');
    } else if d == 3 {
        out.push('3');
    } else if d == 4 {
        out.push('4');
    } else if d == 5 {
        out.push('5');
    } else if d == 6 {
        out.push('6');
    } else if d == 7 {
        out.push('7');
    } else if d == 8 {
        out.push('8');
    } else {
        out.push('9');
    }
    proof {
        assert(final(out)@ =~= old(out)@ + seq![spec_hex_digit(d as nat)]);
    }
}

fn push_escaped_char(out: &mut String, c: char)
    ensures
        final(out)@ == old(out)@ + spec_escape_char(c),
{
    if c == '"' {
        out.push('\\');
        out.push('"');
    } else if c == '\\' {
        out.push('\\');
        out.push('\\');
    } else if c == '\n' {
        out.push('\\');
        out.push('n');
    } else if c == '\r' {
        out.push('\\');
        out.push('r');
    } else if c == '\t' {
        out.push('\\');
        out.push('t');
    } else if (c as u32) < 32 {
        out.push('\\');
        out.push('u');
        out.push('0');
        out.push('0');
        push_hex_digit(out, (c as u32) / 16);
        push_hex_digit(out, (c as u32) % 16);
    } else {
        out.push(c);
    }
    proof {
        assert(final(out)@ =~= old(out)@ + spec_escape_char(c));
    }
}

#[verifier::loop_isolation(false)]
fn append_escaped(out: &mut String, s: &str)
    ensures
        final(out)@ == old(out)@ + spec_escape(s@),
{
    let n = s.unicode_len();
    let mut i: usize = 0;
    proof {
        assert(s@.take(0) =~= Seq::<char>::empty());
    }
    while i < n
        invariant
            n == s@.len(),
            0 <= i <= n,
            out@ == old(out)@ + spec_escape(s@.take(i as int)),
        decreases n - i,
    {
        let c = s.get_char(i);
        push_escaped_char(out, c);
        proof {
            assert(s@.take(i + 1) =~= s@.take(i as int).push(s@[i as int]));
            lemma_escape_snoc(s@.take(i as int), s@[i as int]);
            assert(out@ =~= old(out)@ + spec_escape(s@.take(i + 1)));
        }
        i = i + 1;
    }
    proof {
        assert(s@.take(n as int) =~= s@);
    }
}

fn append_number(out: &mut String, n: &JsonNumber)
    ensures
        final(out)@ == old(out)@ + spec_render_num(n@),
{
    match n {
        JsonNumber::Uint(u) => append_u64(out, *u),
        JsonNumber::Int(i) => append_i64(out, *i),
        JsonNumber::Text(t) => out.append(t.as_str()),
    }
}

/// Appends the exact canonical rendering of `v` to `out`.
#[verifier::loop_isolation(false)]
pub fn append_json(out: &mut String, v: &JsonValue)
    ensures
        final(out)@ == old(out)@ + spec_render_json(json_view(*v)),
    decreases *v,
{
    match v {
        JsonValue::Null => {
            out.append("null");
        },
        JsonValue::Bool(b) => {
            if *b {
                out.append("true");
            } else {
                out.append("false");
            }
        },
        JsonValue::Num(n) => {
            append_number(out, n);
        },
        JsonValue::Str(s) => {
            out.push('"');
            append_escaped(out, s.as_str());
            out.push('"');
            proof {
                assert(final(out)@ =~= old(out)@ + spec_render_json(json_view(*v)));
            }
        },
        JsonValue::Arr(a) => {
            proof {
                crate::json::lemma_json_view_seq(a@);
            }
            let ghost vs = json_view_seq(a@);
            out.push('[');
            let n = a.len();
            let mut i: usize = 0;
            proof {
                assert(vs.take(0) =~= Seq::<JsonV>::empty());
            }
            while i < n
                invariant
                    0 <= i <= n,
                    out@ == old(out)@ + seq!['['] + spec_render_items(vs.take(i as int)),
                decreases n - i,
            {
                if i > 0 {
                    out.push(',');
                }
                proof {
                    assert(decreases_to!(*v => a@[i as int])) by {
                        assert(decreases_to!(a@ => a@[i as int]));
                        assert(decreases_to!(*a => a@));
                        assert(decreases_to!(*v => (*v)->Arr_0));
                        assert(*a == (*v)->Arr_0);
                    }
                }
                append_json(out, &a[i]);
                proof {
                    assert(vs.take(i + 1) =~= vs.take(i as int).push(vs[i as int]));
                    lemma_render_items_snoc(vs.take(i as int), vs[i as int]);
                    assert(out@ =~= old(out)@ + seq!['['] + spec_render_items(vs.take(i + 1)));
                }
                i = i + 1;
            }
            out.push(']');
            proof {
                assert(vs.take(n as int) =~= vs);
                assert(final(out)@ =~= old(out)@ + spec_render_json(json_view(*v)));
            }
        },
        JsonValue::Obj(o) => {
            proof {
                crate::json::lemma_json_view_fields(o@);
            }
            let ghost vf = json_view_fields(o@);
            out.push('{');
            let n = o.len();
            let mut i: usize = 0;
            proof {
                assert(vf.take(0) =~= Seq::<(Seq<char>, JsonV)>::empty());
            }
            while i < n
                invariant
                    0 <= i <= n,
                    out@ == old(out)@ + seq!['{'] + spec_render_fields(vf.take(i as int)),
                decreases n - i,
            {
                if i > 0 {
                    out.push(',');
                }
                let ghost mid = out@;
                out.push('"');
                append_escaped(out, o[i].0.as_str());
                out.push('"');
                out.push(':');
                proof {
                    assert(decreases_to!(*v => o@[i as int].1)) by {
                        assert(decreases_to!(o@[i as int] => o@[i as int].1));
                        assert(decreases_to!(o@ => o@[i as int]));
                        assert(decreases_to!(*o => o@));
                        assert(decreases_to!(*v => (*v)->Obj_0));
                        assert(*o == (*v)->Obj_0);
                    }
                }
                append_json(out, &o[i].1);
                proof {
                    assert(out@ =~= mid + spec_render_field(vf[i as int]));
                    assert(vf.take(i + 1) =~= vf.take(i as int).push(vf[i as int]));
                    lemma_render_fields_snoc(vf.take(i as int), vf[i as int]);
                    assert(out@ =~= old(out)@ + seq!['{'] + spec_render_fields(vf.take(i + 1)));
                }
                i = i + 1;
            }
            out.push('}');
            proof {
                assert(vf.take(n as int) =~= vf);
                assert(final(out)@ =~= old(out)@ + spec_render_json(json_view(*v)));
            }
        },
    }
}

/// The exact canonical rendering of a JSON tree.
pub fn render_json(v: &JsonValue) -> (out: String)
    ensures
        out@ == spec_render_json(json_view(*v)),
{
    let mut out = String::new();
    append_json(&mut out, v);
    proof {
        assert(out@ =~= spec_render_json(json_view(*v)));
    }
    out
}

} // verus!
