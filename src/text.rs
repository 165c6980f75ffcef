//! JSON text, through serde_json's parser and writer, and the public entry
//! points of the library.
use vstd::prelude::*;

use crate::decode::{blames, decode_node, decodes, fails_in_marks, first_field_shaped, located, tag_schema, node_keys, node_tag_known, tag_matches, tag_or_empty, tag_text};
use crate::encode::{encode_node, encodes};
use crate::error::{error_at, DecodeError, DecodeErrorKind, PathStep};
use crate::fields::names_variant;
use crate::json::{first_unexpected, keys_within, member, JsonNumber, JsonValue};
use crate::model::Node;

verus! {

#[verifier::external_type_specification]
#[verifier::external_body]
pub struct ExSerdeValue(serde_json::Value);

/// What a serde_json value holds, as mathematical data: texts as character
/// sequences, numbers as serde_json keeps them, object members in the
/// order that the value walks them.
pub enum JsonView {
    Null,
    Bool(bool),
    Number(serde_json::Number),
    Str(Seq<char>),
    Array(Seq<JsonView>),
    Object(Seq<(Seq<char>, JsonView)>),
}

/// What a serde_json value holds.
pub uninterp spec fn serde_view(v: serde_json::Value) -> JsonView;

/// How deeply a serde_json value nests: more than any value inside it.
pub uninterp spec fn nesting(v: serde_json::Value) -> nat;

/// What the JSON text `s` parses to.
pub uninterp spec fn json_of(s: Seq<char>) -> JsonView;

/// The text is JSON, as serde_json's parser accepts it: well formed, and
/// nested no deeper than the parser's limit of 128 levels.
pub uninterp spec fn is_json_text(s: Seq<char>) -> bool;

/// The compact JSON text that serde_json writes for what a value holds.
pub uninterp spec fn json_text_of(w: JsonView) -> Seq<char>;

/// The number as an `i64`, where it is an integer in that range.
pub uninterp spec fn i64_of(n: serde_json::Number) -> Option<i64>;

/// `j` holds what `w` holds. An integer that fits in `i64` is `Int`, any
/// other number `Decimal`.
pub open spec fn views_as(j: JsonValue, w: JsonView) -> bool
    decreases j,
{
    match j {
        JsonValue::Null => w == JsonView::Null,
        JsonValue::Bool(b) => w == JsonView::Bool(b),
        JsonValue::Number(JsonNumber::Int(i)) => w matches JsonView::Number(n) && i64_of(n) == Some(i),
        JsonValue::Number(JsonNumber::Decimal(n)) => w == JsonView::Number(n) && i64_of(n) is None,
        JsonValue::Str(s) => w == JsonView::Str(s@),
        JsonValue::Array(a) => {
            &&& w matches JsonView::Array(ws)
            &&& ws.len() == a@.len()
            &&& forall|i: int| 0 <= i < a@.len() ==> views_as(#[trigger] a@[i], ws[i])
        },
        JsonValue::Object(m) => {
            &&& w matches JsonView::Object(ws)
            &&& ws.len() == m@.len()
            &&& forall|i: int| 0 <= i < m@.len() ==> ws[i].0 == (#[trigger] m@[i]).0@ && views_as(m@[i].1, ws[i].1)
        },
    }
}

/// Texts in the order of Rust's `String` comparison: by code point.
pub open spec fn text_lt(a: Seq<char>, b: Seq<char>) -> bool
    decreases a.len(),
{
    if a.len() == 0 {
        b.len() > 0
    } else if b.len() == 0 {
        false
    } else if a[0] != b[0] {
        (a[0] as u32) < (b[0] as u32)
    } else {
        text_lt(a.drop_first(), b.drop_first())
    }
}

/// The members' keys rise strictly, as a serde_json map walks them.
pub open spec fn keys_sorted(ws: Seq<(Seq<char>, JsonView)>) -> bool {
    forall|i: int, k: int| 0 <= i < k < ws.len() ==> text_lt(#[trigger] ws[i].0, #[trigger] ws[k].0)
}

/// Some member has the key `k`.
pub open spec fn has_key(ws: Seq<(Seq<char>, JsonView)>, k: Seq<char>) -> bool {
    exists|i: int| 0 <= i < ws.len() && ws[i].0 == k
}

/// The member at `t` is the last one with its key.
pub open spec fn last_with_key<V>(m: Seq<(String, V)>, t: int) -> bool {
    forall|u: int| t < u < m.len() ==> (#[trigger] m[u]).0@ != m[t].0@
}

/// The value that members give to `key`: the last member with that key.
pub open spec fn serde_member(m: Seq<(String, serde_json::Value)>, key: Seq<char>) -> Option<serde_json::Value>
    decreases m.len(),
{
    if m.len() == 0 {
        None
    } else if m.last().0@ == key {
        Some(m.last().1)
    } else {
        serde_member(m.drop_last(), key)
    }
}

/// The map member `e` comes from the last of the members with its key,
/// written.
pub open spec fn member_written(m: Seq<(String, JsonValue)>, e: (Seq<char>, JsonView)) -> bool
    decreases m,
{
    exists|t: int| 0 <= t < m.len() && last_with_key(m, t) && (#[trigger] m[t]).0@ == e.0 && written_as(m[t].1, e.1)
}

/// `w` is what serde_json holds once `j` is written into it: objects keep
/// each key once, with its last value, in key order.
pub open spec fn written_as(j: JsonValue, w: JsonView) -> bool
    decreases j,
{
    match j {
        JsonValue::Null => w == JsonView::Null,
        JsonValue::Bool(b) => w == JsonView::Bool(b),
        JsonValue::Number(JsonNumber::Int(i)) => w matches JsonView::Number(n) && i64_of(n) == Some(i),
        JsonValue::Number(JsonNumber::Decimal(n)) => w == JsonView::Number(n),
        JsonValue::Str(s) => w == JsonView::Str(s@),
        JsonValue::Array(a) => {
            &&& w matches JsonView::Array(ws)
            &&& ws.len() == a@.len()
            &&& forall|i: int| 0 <= i < a@.len() ==> written_as(#[trigger] a@[i], ws[i])
        },
        JsonValue::Object(m) => {
            &&& w matches JsonView::Object(ws)
            &&& keys_sorted(ws)
            &&& forall|i: int| 0 <= i < ws.len() ==> member_written(m@, #[trigger] ws[i])
            &&& forall|t: int| 0 <= t < m@.len() ==> has_key(ws, (#[trigger] m@[t]).0@)
        },
    }
}

/// One level of a serde_json value; what lies below stays a serde_json value.
enum Layer {
    Null,
    Bool(bool),
    Number(serde_json::Number),
    Str(String),
    Array(Vec<serde_json::Value>),
    Object(Vec<(String, serde_json::Value)>),
}

/// Relies on serde_json::from_str: parses JSON text into a generic value,
/// and fails exactly on text that is not JSON.
#[verifier::external_body]
fn parse_text(s: &str) -> (r: Option<serde_json::Value>)
    ensures
        r is Some <==> is_json_text(s@),
        r matches Some(v) ==> serde_view(v) == json_of(s@),
{
    serde_json::from_str(s).ok()
}

/// Relies on the derived `Clone` of serde_json::Value: the copy holds the
/// same.
#[verifier::external_body]
fn copy_value(v: &serde_json::Value) -> (r: serde_json::Value)
    ensures
        serde_view(r) == serde_view(*v),
        nesting(r) == nesting(*v),
{
    v.clone()
}

/// Relies on the variants of serde_json::Value: opens one level of a value,
/// an object's members in the order that its map walks them.
#[verifier::external_body]
fn open_layer(v: serde_json::Value) -> (r: Layer)
    ensures
        match r {
            Layer::Null => serde_view(v) == JsonView::Null,
            Layer::Bool(b) => serde_view(v) == JsonView::Bool(b),
            Layer::Number(n) => serde_view(v) == JsonView::Number(n),
            Layer::Str(s) => serde_view(v) == JsonView::Str(s@),
            Layer::Array(a) => serde_view(v) matches JsonView::Array(ws) && ws.len() == a@.len() && forall|i: int|
                0 <= i < a@.len() ==> ws[i] == serde_view(#[trigger] a@[i]) && nesting(a@[i]) < nesting(v),
            Layer::Object(m) => serde_view(v) matches JsonView::Object(ws) && ws.len() == m@.len() && forall|i: int|
                0 <= i < m@.len() ==> ws[i] == ((#[trigger] m@[i]).0@, serde_view(m@[i].1)) && nesting(m@[i].1) < nesting(v),
        },
{
    match v {
        serde_json::Value::Null => Layer::Null,
        serde_json::Value::Bool(b) => Layer::Bool(b),
        serde_json::Value::Number(n) => Layer::Number(n),
        serde_json::Value::String(s) => Layer::Str(s),
        serde_json::Value::Array(a) => Layer::Array(a),
        serde_json::Value::Object(m) => Layer::Object(m.into_iter().collect()),
    }
}

/// Relies on the variants of serde_json::Value: builds one level of a value.
/// An object's map keeps each key once, with its last value, in key order.
#[verifier::external_body]
fn close_layer(l: Layer) -> (r: serde_json::Value)
    ensures
        match l {
            Layer::Null => serde_view(r) == JsonView::Null,
            Layer::Bool(b) => serde_view(r) == JsonView::Bool(b),
            Layer::Number(n) => serde_view(r) == JsonView::Number(n),
            Layer::Str(s) => serde_view(r) == JsonView::Str(s@),
            Layer::Array(a) => serde_view(r) matches JsonView::Array(ws) && ws.len() == a@.len() && forall|i: int|
                0 <= i < a@.len() ==> ws[i] == serde_view(#[trigger] a@[i]),
            Layer::Object(m) => {
                &&& serde_view(r) matches JsonView::Object(ws)
                &&& keys_sorted(ws)
                &&& forall|i: int|
                    0 <= i < ws.len() ==> (serde_member(m@, (#[trigger] ws[i]).0) matches Some(x) && ws[i].1 == serde_view(x))
                &&& forall|t: int|
                    0 <= t < m@.len() ==> has_key(ws, (#[trigger] m@[t]).0@)
            },
        },
{
    match l {
        Layer::Null => serde_json::Value::Null,
        Layer::Bool(b) => serde_json::Value::Bool(b),
        Layer::Number(n) => serde_json::Value::Number(n),
        Layer::Str(s) => serde_json::Value::String(s),
        Layer::Array(a) => serde_json::Value::Array(a),
        Layer::Object(m) => serde_json::Value::Object(m.into_iter().collect()),
    }
}

/// Relies on serde_json::Number::as_i64: the number as an `i64` where it is
/// an integer in that range.
pub assume_specification[ serde_json::Number::as_i64 ](n: &serde_json::Number) -> (r: Option<i64>)
    ensures
        r == i64_of(*n),
;

/// Relies on serde_json::Number's `From<i64>`: an integer number, which
/// `as_i64` gives back.
#[verifier::external_body]
fn number_from_int(i: i64) -> (r: serde_json::Number)
    ensures
        i64_of(r) == Some(i),
{
    serde_json::Number::from(i)
}

/// Relies on serde_json::to_string: writes a value as compact JSON text,
/// which depends on what the value holds alone. Writing a `Value` into
/// memory does not fail: its map keys are strings.
#[verifier::external_body]
fn write_text(v: &serde_json::Value) -> (r: String)
    ensures
        r@ == json_text_of(serde_view(*v)),
{
    match serde_json::to_string(v) {
        Ok(s) => s,
        Err(_) => String::new(),
    }
}

/// Turns a serde_json value into a `JsonValue` that holds the same.
pub fn from_serde(v: &serde_json::Value) -> (r: JsonValue)
    ensures
        views_as(r, serde_view(*v)),
    decreases nesting(*v),
{
    let c = copy_value(v);
    match open_layer(c) {
        Layer::Null => JsonValue::Null,
        Layer::Bool(b) => JsonValue::Bool(b),
        Layer::Number(n) => match n.as_i64() {
            Some(i) => JsonValue::Number(JsonNumber::Int(i)),
            None => JsonValue::Number(JsonNumber::Decimal(n)),
        },
        Layer::Str(s) => JsonValue::Str(s),
        Layer::Array(a) => {
            let ghost ws = serde_view(c)->Array_0;
            let mut out: Vec<JsonValue> = Vec::new();
            let mut k: usize = 0;
            while k < a.len()
                invariant
                    serde_view(*v) == JsonView::Array(ws),
                    ws.len() == a@.len(),
                    forall|i: int| 0 <= i < a@.len() ==> ws[i] == serde_view(#[trigger] a@[i]) && nesting(a@[i]) < nesting(*v),
                    k <= a@.len(),
                    out@.len() == k,
                    forall|i: int| 0 <= i < k ==> views_as(#[trigger] out@[i], ws[i]),
                decreases a@.len() - k,
            {
                out.push(from_serde(&a[k]));
                k = k + 1;
            }
            JsonValue::Array(out)
        },
        Layer::Object(m) => {
            let ghost ws = serde_view(c)->Object_0;
            let mut out: Vec<(String, JsonValue)> = Vec::new();
            let mut k: usize = 0;
            while k < m.len()
                invariant
                    serde_view(*v) == JsonView::Object(ws),
                    ws.len() == m@.len(),
                    forall|i: int| 0 <= i < m@.len() ==> ws[i] == ((#[trigger] m@[i]).0@, serde_view(m@[i].1)) && nesting(m@[i].1)
                        < nesting(*v),
                    k <= m@.len(),
                    out@.len() == k,
                    forall|i: int| 0 <= i < k ==> ws[i].0 == (#[trigger] out@[i]).0@ && views_as(out@[i].1, ws[i].1),
                decreases m@.len() - k,
            {
                let y = from_serde(&m[k].1);
                out.push((m[k].0.clone(), y));
                k = k + 1;
            }
            JsonValue::Object(out)
        },
    }
}

/// The member that gives `key` its value is the last one with that key.
proof fn lemma_serde_member_last(m: Seq<(String, serde_json::Value)>, key: Seq<char>)
    requires
        serde_member(m, key) is Some,
    ensures
        exists|t: int|
            0 <= t < m.len() && (#[trigger] m[t]).0@ == key && Some(m[t].1) == serde_member(m, key) && last_with_key(m, t),
    decreases m.len(),
{
    let t = m.len() - 1;
    if m.last().0@ == key {
        assert(m[t].0@ == key && last_with_key(m, t));
    } else {
        lemma_serde_member_last(m.drop_last(), key);
        let u = choose|u: int|
            0 <= u < m.drop_last().len() && (#[trigger] m.drop_last()[u]).0@ == key && Some(m.drop_last()[u].1)
                == serde_member(m.drop_last(), key) && last_with_key(m.drop_last(), u);
        assert(m[u] == m.drop_last()[u]);
        assert forall|w: int| u < w < m.len() implies (#[trigger] m[w]).0@ != m[u].0@ by {
            if w < t {
                assert(m[w] == m.drop_last()[w]);
            }
        }
    }
}

/// Building a map from converted members holds what writing the members
/// holds: each key of the map comes from its last member, and every
/// member's key is in the map.
proof fn lemma_written_object(
    m: Seq<(String, JsonValue)>,
    og: Seq<(String, serde_json::Value)>,
    ws: Seq<(Seq<char>, JsonView)>,
)
    requires
        og.len() == m.len(),
        forall|i: int| 0 <= i < og.len() ==> (#[trigger] og[i]).0 == m[i].0 && written_as(m[i].1, serde_view(og[i].1)),
        forall|i: int|
            0 <= i < ws.len() ==> (serde_member(og, (#[trigger] ws[i]).0) matches Some(x) && ws[i].1 == serde_view(x)),
        forall|t: int| 0 <= t < og.len() ==> has_key(ws, (#[trigger] og[t]).0@),
    ensures
        forall|i: int| 0 <= i < ws.len() ==> member_written(m, #[trigger] ws[i]),
        forall|t: int| 0 <= t < m.len() ==> has_key(ws, (#[trigger] m[t]).0@),
{
    assert forall|i: int| 0 <= i < ws.len() implies member_written(m, #[trigger] ws[i]) by {
        lemma_serde_member_last(og, ws[i].0);
        let t = choose|t: int|
            0 <= t < og.len() && (#[trigger] og[t]).0@ == ws[i].0 && Some(og[t].1) == serde_member(og, ws[i].0)
                && last_with_key(og, t);
        assert forall|u: int| t < u < m.len() implies (#[trigger] m[u]).0@ != m[t].0@ by {
            assert(og[u].0 == m[u].0);
            assert(og[t].0 == m[t].0);
        }
        assert(og[t].0 == m[t].0);
        assert(m[t].0@ == ws[i].0);
    }
    assert forall|t: int| 0 <= t < m.len() implies has_key(ws, (#[trigger] m[t]).0@) by {
        assert(og[t].0 == m[t].0);
    }
}

/// Turns a `JsonValue` into a serde_json value that holds what writing
/// `j` holds.
fn to_serde(j: &JsonValue) -> (r: serde_json::Value)
    ensures
        written_as(*j, serde_view(r)),
    decreases j,
{
    match j {
        JsonValue::Null => close_layer(Layer::Null),
        JsonValue::Bool(b) => close_layer(Layer::Bool(*b)),
        JsonValue::Number(JsonNumber::Int(i)) => close_layer(Layer::Number(number_from_int(*i))),
        JsonValue::Number(JsonNumber::Decimal(n)) => close_layer(Layer::Number(n.clone())),
        JsonValue::Str(s) => close_layer(Layer::Str(s.clone())),
        JsonValue::Array(a) => close_layer(Layer::Array(to_serde_items(a))),
        JsonValue::Object(m) => {
            let out = to_serde_members(m);
            let ghost og = out@;
            let r = close_layer(Layer::Object(out));
            proof {
                let ws = serde_view(r)->Object_0;
                lemma_written_object(m@, og, ws);
            }
            r
        },
    }
}

fn to_serde_items(a: &Vec<JsonValue>) -> (r: Vec<serde_json::Value>)
    ensures
        r@.len() == a@.len(),
        forall|i: int| 0 <= i < a@.len() ==> written_as(#[trigger] a@[i], serde_view(r@[i])),
    decreases a,
{
    let mut out: Vec<serde_json::Value> = Vec::new();
    let mut k: usize = 0;
    while k < a.len()
        invariant
            k <= a@.len(),
            out@.len() == k,
            forall|i: int| 0 <= i < k ==> written_as(#[trigger] a@[i], serde_view(out@[i])),
        decreases a@.len() - k,
    {
        out.push(to_serde(&a[k]));
        k = k + 1;
    }
    out
}

fn to_serde_members(m: &Vec<(String, JsonValue)>) -> (r: Vec<(String, serde_json::Value)>)
    ensures
        r@.len() == m@.len(),
        forall|i: int| 0 <= i < m@.len() ==> (#[trigger] r@[i]).0 == m@[i].0 && written_as(m@[i].1, serde_view(r@[i].1)),
    decreases m,
{
    let mut out: Vec<(String, serde_json::Value)> = Vec::new();
    let mut k: usize = 0;
    while k < m.len()
        invariant
            k <= m@.len(),
            out@.len() == k,
            forall|i: int| 0 <= i < k ==> (#[trigger] out@[i]).0 == m@[i].0 && written_as(m@[i].1, serde_view(out@[i].1)),
        decreases m@.len() - k,
    {
        let v = to_serde(&m[k].1);
        out.push((m[k].0.clone(), v));
        k = k + 1;
    }
    out
}

/// Reads a generic JSON value as a document tree. It succeeds exactly when
/// some tree reads from `input`, and then gives that tree. A `type` that
/// names no node fails with `UnknownVariant` carrying that text, a key that
/// the named variant does not declare with `UnexpectedField` naming the
/// first such key.
pub fn from_value(input: JsonValue) -> (r: Result<Node, DecodeError>)
    ensures
        r matches Err(e) ==> blames(input, e),
        r matches Err(e) ==> located(input, e.path@, e.kind),
        tag_schema(tag_or_empty(input)) matches Some((v, ks, Some(f))) ==> (keys_within(input->Object_0@, ks) && (member(
            input->Object_0@,
            f@,
        ) matches Some(x) && !first_field_shaped(f, x)) ==> (r matches Err(e) && (e.kind matches DecodeErrorKind::TypeMismatch {
            variant: ev,
            field: ef,
            ..
        } && ev == v && ef == f))),
        tag_schema(tag_or_empty(input)) matches Some((v, ks, Some(f))) ==> (keys_within(input->Object_0@, ks) && member(
            input->Object_0@,
            f@,
        ) is None ==> (r matches Err(e) && e.kind == (DecodeErrorKind::MissingField { variant: v, field: f })
            && e.path@.len() == 0)),
        r matches Err(e) ==> (e.path@.len() > 0 && e.path@[0] == PathStep::Field("marks") ==> fails_in_marks(
            input,
            e.path@.drop_first(),
        )),
        r matches Err(e) ==> (e.path@.len() == 0 ==> names_variant(e.kind, tag_or_empty(input))),
        r matches Err(e) ==> !(e.kind is MalformedInput),
        match r {
            Ok(n) => decodes(input, n),
            Err(_) => forall|n: Node| !decodes(input, n),
        },
        (tag_text(input) matches Some(t) ==> !node_tag_known(t)) ==> (r matches Err(e)
            && e.kind matches DecodeErrorKind::UnknownVariant(u) && u@ == tag_or_empty(input) && e.path@.len() == 0),
        forall|n: Node|
            #![trigger tag_matches(tag_text(input)->Some_0, n)]
            tag_text(input) is Some && tag_matches(tag_text(input)->Some_0, n) && !keys_within(input->Object_0@, node_keys(n))
                ==> (r matches Err(e) && e.kind matches DecodeErrorKind::UnexpectedField { variant, field }
                && variant@ == tag_text(input)->Some_0 && first_unexpected(input->Object_0@, node_keys(n), field@)
                && e.path@.len() == 0),
{
    decode_node(&input)
}

/// Reads JSON text as a generic JSON value; `None` for text that is not
/// JSON.
pub fn value_from_str(input: &str) -> (r: Option<JsonValue>)
    ensures
        r is Some <==> is_json_text(input@),
        r matches Some(j) ==> views_as(j, json_of(input@)),
{
    match parse_text(input) {
        None => None,
        Some(v) => Some(from_serde(&v)),
    }
}

/// Reads JSON text as a document tree. Text that is not JSON, or JSON
/// nested deeper than serde_json's parser allows (128 levels), fails with
/// `MalformedInput`; otherwise the result is that of reading the value the
/// text parses to.
pub fn from_str(input: &str) -> (r: Result<Node, DecodeError>)
    ensures
        !is_json_text(input@) ==> (r matches Err(e) && e.kind is MalformedInput && e.path@.len() == 0),
        is_json_text(input@) ==> exists|j: JsonValue|
            #![trigger views_as(j, json_of(input@))]
            views_as(j, json_of(input@)) && match r {
                Ok(n) => decodes(j, n),
                Err(e) => !(e.kind is MalformedInput) && forall|n: Node| !decodes(j, n),
            },
{
    match value_from_str(input) {
        None => Err(error_at(DecodeErrorKind::MalformedInput)),
        Some(j) => decode_node(&j),
    }
}

/// Writes a document tree as a generic JSON value.
pub fn encode(node: &Node) -> (r: JsonValue)
    ensures
        encodes(*node, r),
{
    encode_node(node)
}

/// Writes a document tree as compact JSON text: the text serde_json writes
/// for the value that `encode` gives, its object keys in sorted order.
pub fn encode_text(node: &Node) -> (r: String)
    ensures
        exists|j: JsonValue, w: JsonView| encodes(*node, j) && written_as(j, w) && r@ == json_text_of(w),
{
    let j = encode_node(node);
    write_text(&to_serde(&j))
}

} // verus!
