//! The library's own JSON tree, its mathematical view, and the trusted
//! boundary to serde_json's parser.
//!
//! Responses are parsed once into [`JsonValue`]; every decoder in this crate
//! is then ordinary verified code over that tree. Numbers are kept as they
//! stood on the wire: an unsigned integer, a signed integer, or — for
//! anything else, such as a decimal fraction — the textual token, so no
//! precision is ever lost and re-encoding reproduces the token.
use vstd::prelude::*;

use crate::text::str_eq;

verus! {

broadcast use vstd::std_specs::vec::group_vec_axioms;

/// A JSON number as it stood on the wire.
#[derive(Debug, PartialEq)]
pub enum JsonNumber {
    /// An integer that fits `u64`.
    Uint(u64),
    /// A negative integer that fits `i64`.
    Int(i64),
    /// Any other numeric token (a decimal fraction, an exponent form, or an
    /// integer too large for the above), kept as read; the reader only
    /// makes a bare exponent sign explicit.
    Text(String),
}

pub enum NumberV {
    Uint(u64),
    Int(i64),
    Text(Seq<char>),
}

impl View for JsonNumber {
    type V = NumberV;

    open spec fn view(&self) -> NumberV {
        match self {
            JsonNumber::Uint(u) => NumberV::Uint(*u),
            JsonNumber::Int(i) => NumberV::Int(*i),
            JsonNumber::Text(s) => NumberV::Text(s@),
        }
    }
}

impl JsonNumber {
    /// An owned copy with the same view.
    pub fn duplicate(&self) -> (r: JsonNumber)
        ensures
            r@ == self@,
    {
        match self {
            JsonNumber::Uint(u) => JsonNumber::Uint(*u),
            JsonNumber::Int(i) => JsonNumber::Int(*i),
            JsonNumber::Text(s) => JsonNumber::Text(s.clone()),
        }
    }
}

/// A JSON document, decoded into the library's own tree.
#[derive(Debug)]
pub enum JsonValue {
    Null,
    Bool(bool),
    Num(JsonNumber),
    Str(String),
    Arr(Vec<JsonValue>),
    Obj(Vec<(String, JsonValue)>),
}

/// The mathematical view of a [`JsonValue`].
pub enum JsonV {
    Null,
    Bool(bool),
    Num(NumberV),
    Str(Seq<char>),
    Arr(Seq<JsonV>),
    Obj(Seq<(Seq<char>, JsonV)>),
}

pub open spec fn json_view(v: JsonValue) -> JsonV
    decreases v,
{
    match v {
        JsonValue::Null => JsonV::Null,
        JsonValue::Bool(b) => JsonV::Bool(b),
        JsonValue::Num(n) => JsonV::Num(n@),
        JsonValue::Str(s) => JsonV::Str(s@),
        JsonValue::Arr(a) => JsonV::Arr(json_view_seq(a@)),
        JsonValue::Obj(o) => JsonV::Obj(json_view_fields(o@)),
    }
}

pub open spec fn json_view_seq(s: Seq<JsonValue>) -> Seq<JsonV>
    decreases s,
{
    if s.len() == 0 {
        Seq::empty()
    } else {
        json_view_seq(s.drop_last()).push(json_view(s.last()))
    }
}

pub open spec fn json_view_fields(s: Seq<(String, JsonValue)>) -> Seq<(Seq<char>, JsonV)>
    decreases s,
{
    if s.len() == 0 {
        Seq::empty()
    } else {
        json_view_fields(s.drop_last()).push((s.last().0@, json_view(s.last().1)))
    }
}

impl View for JsonValue {
    type V = JsonV;

    open spec fn view(&self) -> JsonV {
        json_view(*self)
    }
}

pub proof fn lemma_json_view_seq(s: Seq<JsonValue>)
    ensures
        json_view_seq(s).len() == s.len(),
        forall|i: int| 0 <= i < s.len() ==> json_view_seq(s)[i] == json_view(s[i]),
    decreases s.len(),
{
    if s.len() > 0 {
        lemma_json_view_seq(s.drop_last());
        assert forall|i: int| 0 <= i < s.len() implies json_view_seq(s)[i] == json_view(
            s[i],
        ) by {
            if i < s.len() - 1 {
                assert(s.drop_last()[i] == s[i]);
            } else {
                assert(s[i] == s.last());
            }
        }
    }
}

pub proof fn lemma_json_view_fields(s: Seq<(String, JsonValue)>)
    ensures
        json_view_fields(s).len() == s.len(),
        forall|i: int| 0 <= i < s.len() ==> json_view_fields(s)[i] == (
            s[i].0@,
            json_view(s[i].1),
        ),
    decreases s.len(),
{
    if s.len() > 0 {
        lemma_json_view_fields(s.drop_last());
        assert forall|i: int| 0 <= i < s.len() implies json_view_fields(s)[i] == (
            s[i].0@,
            json_view(s[i].1),
        ) by {
            if i < s.len() - 1 {
                assert(s.drop_last()[i] == s[i]);
            } else {
                assert(s[i] == s.last());
            }
        }
    }
}

/// The view of an optional string.
pub open spec fn vopt_str(o: Option<String>) -> Option<Seq<char>> {
    match o {
        Some(s) => Some(s@),
        None => None,
    }
}

/// The view of an optional number.
pub open spec fn vopt_num(o: Option<JsonNumber>) -> Option<NumberV> {
    match o {
        Some(n) => Some(n@),
        None => None,
    }
}

/// The view of an optional integer list.
pub open spec fn vopt_u64s(o: Option<Vec<u64>>) -> Option<Seq<u64>> {
    match o {
        Some(s) => Some(s@),
        None => None,
    }
}

/// The value under `key` in an object's field list: the first binding wins.
pub open spec fn spec_obj_get(fields: Seq<(Seq<char>, JsonV)>, key: Seq<char>) -> Option<JsonV>
    decreases fields.len(),
{
    if fields.len() == 0 {
        None
    } else if fields[0].0 == key {
        Some(fields[0].1)
    } else {
        spec_obj_get(fields.drop_first(), key)
    }
}

proof fn lemma_obj_get_step(fields: Seq<(Seq<char>, JsonV)>, key: Seq<char>, i: int)
    requires
        0 <= i < fields.len(),
        fields[i].0 != key,
    ensures
        spec_obj_get(fields.skip(i), key) == spec_obj_get(fields.skip(i + 1), key),
{
    assert(fields.skip(i).len() > 0);
    assert(fields.skip(i)[0] == fields[i]);
    assert(fields.skip(i).drop_first() =~= fields.skip(i + 1));
}

/// Looks `key` up in an object's field list.
#[verifier::loop_isolation(false)]
pub fn obj_get<'a>(fields: &'a Vec<(String, JsonValue)>, key: &str) -> (r: Option<
    &'a JsonValue,
>)
    ensures
        match r {
            Some(w) => spec_obj_get(json_view_fields(fields@), key@) == Some(json_view(*w)),
            None => spec_obj_get(json_view_fields(fields@), key@) is None,
        },
{
    proof {
        lemma_json_view_fields(fields@);
    }
    let ghost vf = json_view_fields(fields@);
    proof {
        assert(vf.skip(0) =~= vf);
    }
    let n = fields.len();
    let mut i: usize = 0;
    while i < n
        invariant
            0 <= i <= n,
            spec_obj_get(vf, key@) == spec_obj_get(vf.skip(i as int), key@),
        decreases n - i,
    {
        if str_eq(fields[i].0.as_str(), key) {
            proof {
                assert(vf.skip(i as int).len() > 0);
                assert(vf.skip(i as int)[0] == vf[i as int]);
            }
            return Some(&fields[i].1);
        }
        proof {
            lemma_obj_get_step(vf, key@, i as int);
        }
        i = i + 1;
    }
    proof {
        assert(vf.skip(n as int) =~= Seq::<(Seq<char>, JsonV)>::empty());
    }
    None
}

// ---------------------------------------------------------------------------
// Typed accessors: each mirrors the loose conversion the wire format asks
// for, with the exact success condition in its contract.
// ---------------------------------------------------------------------------
/// A required string.
pub open spec fn spec_as_str(v: JsonV) -> Option<Seq<char>> {
    match v {
        JsonV::Str(s) => Some(s),
        _ => None,
    }
}

/// An optional string: wire null means "no value".
pub open spec fn spec_as_opt_str(v: JsonV) -> Option<Option<Seq<char>>> {
    match v {
        JsonV::Null => Some(None),
        JsonV::Str(s) => Some(Some(s)),
        _ => None,
    }
}

/// A required unsigned integer.
pub open spec fn spec_as_u64(v: JsonV) -> Option<u64> {
    match v {
        JsonV::Num(NumberV::Uint(u)) => Some(u),
        _ => None,
    }
}

/// An optional unsigned integer.
pub open spec fn spec_as_opt_u64(v: JsonV) -> Option<Option<u64>> {
    match v {
        JsonV::Null => Some(None),
        JsonV::Num(NumberV::Uint(u)) => Some(Some(u)),
        _ => None,
    }
}

/// A required boolean.
pub open spec fn spec_as_bool(v: JsonV) -> Option<bool> {
    match v {
        JsonV::Bool(b) => Some(b),
        _ => None,
    }
}

/// A required number, kept exactly as it stood on the wire.
pub open spec fn spec_as_num(v: JsonV) -> Option<NumberV> {
    match v {
        JsonV::Num(n) => Some(n),
        _ => None,
    }
}

/// An optional number.
pub open spec fn spec_as_opt_num(v: JsonV) -> Option<Option<NumberV>> {
    match v {
        JsonV::Null => Some(None),
        JsonV::Num(n) => Some(Some(n)),
        _ => None,
    }
}

/// A list of unsigned integers; any other element refuses the whole list.
pub open spec fn spec_u64_seq(s: Seq<JsonV>) -> Option<Seq<u64>>
    decreases s.len(),
{
    if s.len() == 0 {
        Some(Seq::empty())
    } else {
        match (spec_u64_seq(s.drop_last()), s.last()) {
            (Some(rest), JsonV::Num(NumberV::Uint(u))) => Some(rest.push(u)),
            _ => None,
        }
    }
}

/// An optional list of unsigned integers: wire null means "no value".
pub open spec fn spec_as_opt_u64_seq(v: JsonV) -> Option<Option<Seq<u64>>> {
    match v {
        JsonV::Null => Some(None),
        JsonV::Arr(a) => match spec_u64_seq(a) {
            Some(s) => Some(Some(s)),
            None => None,
        },
        _ => None,
    }
}

pub fn value_string(v: &JsonValue) -> (r: Option<String>)
    ensures
        match r {
            Some(s) => spec_as_str(v@) == Some(s@),
            None => spec_as_str(v@) is None,
        },
{
    match v {
        JsonValue::Str(s) => Some(s.clone()),
        _ => None,
    }
}

pub fn value_opt_string(v: &JsonValue) -> (r: Option<Option<String>>)
    ensures
        match r {
            Some(Some(s)) => spec_as_opt_str(v@) == Some(Some(s@)),
            Some(None) => spec_as_opt_str(v@) == Some(None::<Seq<char>>),
            None => spec_as_opt_str(v@) is None,
        },
{
    match v {
        JsonValue::Null => Some(None),
        JsonValue::Str(s) => Some(Some(s.clone())),
        _ => None,
    }
}

pub fn value_u64(v: &JsonValue) -> (r: Option<u64>)
    ensures
        r == spec_as_u64(v@),
{
    match v {
        JsonValue::Num(JsonNumber::Uint(u)) => Some(*u),
        _ => None,
    }
}

pub fn value_opt_u64(v: &JsonValue) -> (r: Option<Option<u64>>)
    ensures
        r == spec_as_opt_u64(v@),
{
    match v {
        JsonValue::Null => Some(None),
        JsonValue::Num(JsonNumber::Uint(u)) => Some(Some(*u)),
        _ => None,
    }
}

pub fn value_bool(v: &JsonValue) -> (r: Option<bool>)
    ensures
        r == spec_as_bool(v@),
{
    match v {
        JsonValue::Bool(b) => Some(*b),
        _ => None,
    }
}

pub fn value_num(v: &JsonValue) -> (r: Option<JsonNumber>)
    ensures
        match r {
            Some(n) => spec_as_num(v@) == Some(n@),
            None => spec_as_num(v@) is None,
        },
{
    match v {
        JsonValue::Num(n) => Some(n.duplicate()),
        _ => None,
    }
}

pub fn value_opt_num(v: &JsonValue) -> (r: Option<Option<JsonNumber>>)
    ensures
        match r {
            Some(Some(n)) => spec_as_opt_num(v@) == Some(Some(n@)),
            Some(None) => spec_as_opt_num(v@) == Some(None::<NumberV>),
            None => spec_as_opt_num(v@) is None,
        },
{
    match v {
        JsonValue::Null => Some(None),
        JsonValue::Num(n) => Some(Some(n.duplicate())),
        _ => None,
    }
}

proof fn lemma_u64_seq_bad(s: Seq<JsonV>, j: int)
    requires
        0 <= j < s.len(),
        !(s[j] matches JsonV::Num(NumberV::Uint(_))),
    ensures
        spec_u64_seq(s) is None,
    decreases s.len(),
{
    if j == s.len() - 1 {
    } else {
        lemma_u64_seq_bad(s.drop_last(), j);
    }
}

#[verifier::loop_isolation(false)]
pub fn value_opt_u64_list(v: &JsonValue) -> (r: Option<Option<Vec<u64>>>)
    ensures
        match r {
            Some(Some(s)) => spec_as_opt_u64_seq(v@) == Some(Some(s@)),
            Some(None) => spec_as_opt_u64_seq(v@) == Some(None::<Seq<u64>>),
            None => spec_as_opt_u64_seq(v@) is None,
        },
{
    match v {
        JsonValue::Null => Some(None),
        JsonValue::Arr(elems) => {
            proof {
                lemma_json_view_seq(elems@);
            }
            let ghost vs = json_view_seq(elems@);
            let n = elems.len();
            let mut out: Vec<u64> = Vec::new();
            let mut i: usize = 0;
            while i < n
                invariant
                    0 <= i <= n,
                    spec_u64_seq(vs.take(i as int)) == Some(out@),
                decreases n - i,
            {
                match &elems[i] {
                    JsonValue::Num(JsonNumber::Uint(u)) => {
                        out.push(*u);
                        proof {
                            assert(vs.take(i + 1).drop_last() =~= vs.take(i as int));
                            assert(vs.take(i + 1).last() == vs[i as int]);
                        }
                    },
                    _ => {
                        proof {
                            lemma_u64_seq_bad(vs, i as int);
                        }
                        return None;
                    },
                }
                i = i + 1;
            }
            proof {
                assert(vs.take(n as int) =~= vs);
            }
            Some(Some(out))
        },
        _ => None,
    }
}

// ---------------------------------------------------------------------------
// The trusted boundary: serde_json parses the body, and the resulting tree
// is converted variant by variant into the library's own.
// ---------------------------------------------------------------------------
#[verifier::external_type_specification]
#[verifier::external_body]
pub struct ExValue(serde_json::Value);

#[verifier::external_type_specification]
#[verifier::external_body]
pub struct ExNumber(serde_json::Number);

/// What a JSON document parses to. `None` is a refused document. The parse
/// result is a function of the input bytes alone.
pub uninterp spec fn spec_json_parse(bytes: Seq<u8>) -> Option<JsonV>;

/// Relies on serde_json::Number (with its arbitrary-precision
/// representation, which keeps the numeric token): `as_u64`/`as_i64`
/// succeed exactly on integer tokens in range, and `to_string` returns the
/// kept token (the token as read, with a bare exponent sign made
/// explicit).
#[verifier::external_body]
fn json_number_of(n: serde_json::Number) -> JsonNumber {
    if let Some(u) = n.as_u64() {
        JsonNumber::Uint(u)
    } else if let Some(i) = n.as_i64() {
        JsonNumber::Int(i)
    } else {
        JsonNumber::Text(n.to_string())
    }
}

/// Relies on serde_json::Value: one arm per variant, moving each payload
/// into the library's own tree.
#[verifier::external_body]
fn json_value_of(v: serde_json::Value) -> JsonValue {
    match v {
        serde_json::Value::Null => JsonValue::Null,
        serde_json::Value::Bool(b) => JsonValue::Bool(b),
        serde_json::Value::Number(n) => JsonValue::Num(json_number_of(n)),
        serde_json::Value::String(s) => JsonValue::Str(s),
        serde_json::Value::Array(a) => JsonValue::Arr(
            a.into_iter().map(json_value_of).collect(),
        ),
        serde_json::Value::Object(o) => JsonValue::Obj(
            o.into_iter().map(|(k, x)| (k, json_value_of(x))).collect(),
        ),
    }
}

/// Relies on serde_json::from_slice: whether the bytes parse, and the tree
/// they parse to, depend on the bytes alone.
#[verifier::external_body]
pub fn parse_json(bytes: &[u8]) -> (r: Option<JsonValue>)
    ensures
        (match r {
            Some(v) => Some(json_view(v)),
            None => None::<JsonV>,
        }) == spec_json_parse(bytes@),
{
    match serde_json::from_slice::<serde_json::Value>(bytes) {
        Ok(v) => Some(json_value_of(v)),
        Err(_) => None,
    }
}


// ---------------------------------------------------------------------------
// Builders for the canonical object-form encoding: each maps a decoded value
// back to the JSON tree that stands for it.
// ---------------------------------------------------------------------------
/// An optional string encodes as the string or as wire null.
pub open spec fn spec_enc_opt_str(o: Option<Seq<char>>) -> JsonV {
    match o {
        Some(s) => JsonV::Str(s),
        None => JsonV::Null,
    }
}

/// An optional unsigned integer encodes as the number or as wire null.
pub open spec fn spec_enc_opt_u64(o: Option<u64>) -> JsonV {
    match o {
        Some(u) => JsonV::Num(NumberV::Uint(u)),
        None => JsonV::Null,
    }
}

/// An optional number encodes as itself or as wire null.
pub open spec fn spec_enc_opt_num(o: Option<NumberV>) -> JsonV {
    match o {
        Some(n) => JsonV::Num(n),
        None => JsonV::Null,
    }
}

/// A list of unsigned integers encodes element by element.
pub open spec fn spec_enc_u64_seq(s: Seq<u64>) -> Seq<JsonV> {
    s.map_values(|u: u64| JsonV::Num(NumberV::Uint(u)))
}

/// An optional integer list encodes as an array or as wire null.
pub open spec fn spec_enc_opt_u64_seq(o: Option<Seq<u64>>) -> JsonV {
    match o {
        Some(s) => JsonV::Arr(spec_enc_u64_seq(s)),
        None => JsonV::Null,
    }
}

pub fn enc_opt_str(o: &Option<String>) -> (r: JsonValue)
    ensures
        json_view(r) == spec_enc_opt_str(vopt_str(*o)),
{
    match o {
        Some(s) => JsonValue::Str(s.clone()),
        None => JsonValue::Null,
    }
}

pub fn enc_opt_u64(o: &Option<u64>) -> (r: JsonValue)
    ensures
        json_view(r) == spec_enc_opt_u64(*o),
{
    match o {
        Some(u) => JsonValue::Num(JsonNumber::Uint(*u)),
        None => JsonValue::Null,
    }
}

pub fn enc_opt_num(o: &Option<JsonNumber>) -> (r: JsonValue)
    ensures
        json_view(r) == spec_enc_opt_num(vopt_num(*o)),
{
    match o {
        Some(n) => JsonValue::Num(n.duplicate()),
        None => JsonValue::Null,
    }
}

#[verifier::loop_isolation(false)]
pub fn enc_opt_u64_list(o: &Option<Vec<u64>>) -> (r: JsonValue)
    ensures
        json_view(r) == spec_enc_opt_u64_seq(vopt_u64s(*o)),
{
    match o {
        Some(s) => {
            let n = s.len();
            let mut items: Vec<JsonValue> = Vec::new();
            let mut i: usize = 0;
            proof {
                lemma_json_view_seq(items@);
                assert(json_view_seq(items@) =~= spec_enc_u64_seq(s@.take(0)));
            }
            while i < n
                invariant
                    0 <= i <= n,
                    n == s@.len(),
                    json_view_seq(items@) == spec_enc_u64_seq(s@.take(i as int)),
                decreases n - i,
            {
                let ghost prev = items@;
                items.push(JsonValue::Num(JsonNumber::Uint(s[i])));
                proof {
                    assert(items@.drop_last() =~= prev);
                    assert(items@.last() == JsonValue::Num(JsonNumber::Uint(s@[i as int])));
                    assert(json_view(items@.last()) == JsonV::Num(NumberV::Uint(s@[i as int])));
                    assert(json_view_seq(items@) == json_view_seq(prev).push(
                        json_view(items@.last()),
                    ));
                    assert(s@.take(i + 1) =~= s@.take(i as int).push(s@[i as int]));
                    assert(spec_enc_u64_seq(s@.take(i + 1)) =~= spec_enc_u64_seq(
                        s@.take(i as int),
                    ).push(JsonV::Num(NumberV::Uint(s@[i as int]))));
                    assert(json_view_seq(items@) == spec_enc_u64_seq(s@.take(i + 1)));
                }
                i = i + 1;
            }
            proof {
                assert(s@.take(n as int) =~= s@);
            }
            JsonValue::Arr(items)
        },
        None => JsonValue::Null,
    }
}

} // verus!
