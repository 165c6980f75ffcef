//! What a single member of an object must hold, and readers that check it.
use vstd::prelude::*;

use crate::error::{error_at, DecodeError, DecodeErrorKind};
use crate::json::{find_member, first_unexpected, first_unknown_key, keys_within, member, JsonNumber, JsonValue};

verus! {

/// Where `e` is about the object itself (its path is empty), a missing
/// field has no member in `m`, and a mismatched field has one.
pub open spec fn blames_member(m: Seq<(String, JsonValue)>, e: DecodeError) -> bool {
    e.path@.len() == 0 ==> match e.kind {
        DecodeErrorKind::MissingField { field, .. } => member(m, field@) is None,
        DecodeErrorKind::TypeMismatch { field, .. } => member(m, field@) is Some,
        _ => true,
    }
}

/// A missing or mismatched field is named under the variant `t`.
pub open spec fn names_variant(k: DecodeErrorKind, t: Seq<char>) -> bool {
    match k {
        DecodeErrorKind::MissingField { variant, .. } => variant@ == t,
        DecodeErrorKind::TypeMismatch { variant, .. } => variant@ == t,
        _ => true,
    }
}

/// An optional field that is left out: no member, or `null`.
pub open spec fn absent(v: Option<JsonValue>) -> bool {
    v is None || v == Some(JsonValue::Null)
}

/// A required string field holding `s`.
pub open spec fn str_of(v: Option<JsonValue>, s: String) -> bool {
    v == Some(JsonValue::Str(s))
}

/// An optional string field: left out for `None`.
pub open spec fn opt_str_of(v: Option<JsonValue>, o: Option<String>) -> bool {
    match o {
        None => absent(v),
        Some(s) => str_of(v, s),
    }
}

/// An integer field holding `x`.
pub open spec fn int_of(v: Option<JsonValue>, x: int) -> bool {
    v matches Some(JsonValue::Number(JsonNumber::Int(i))) && i == x
}

pub open spec fn opt_u16_of(v: Option<JsonValue>, o: Option<u16>) -> bool {
    match o {
        None => absent(v),
        Some(x) => int_of(v, x as int),
    }
}

pub open spec fn opt_u32_of(v: Option<JsonValue>, o: Option<u32>) -> bool {
    match o {
        None => absent(v),
        Some(x) => int_of(v, x as int),
    }
}

pub open spec fn opt_bool_of(v: Option<JsonValue>, o: Option<bool>) -> bool {
    match o {
        None => absent(v),
        Some(b) => v == Some(JsonValue::Bool(b)),
    }
}

pub open spec fn opt_number_of(v: Option<JsonValue>, o: Option<JsonNumber>) -> bool {
    match o {
        None => absent(v),
        Some(x) => v == Some(JsonValue::Number(x)),
    }
}

pub open spec fn u16s_of(a: Seq<JsonValue>, w: Seq<u16>) -> bool {
    a.len() == w.len() && forall|i: int| 0 <= i < a.len() ==> int_of(Some(#[trigger] a[i]), w[i] as int)
}

pub open spec fn opt_u16s_of(v: Option<JsonValue>, o: Option<Vec<u16>>) -> bool {
    match o {
        None => absent(v),
        Some(w) => v matches Some(JsonValue::Array(a)) && u16s_of(a@, w@),
    }
}

pub fn missing(variant: &'static str, field: &'static str) -> (r: DecodeError)
    ensures
        r.kind == (DecodeErrorKind::MissingField { variant, field }),
        r.path@.len() == 0,
{
    error_at(DecodeErrorKind::MissingField { variant, field })
}

pub fn mismatch(variant: &'static str, field: &'static str, expected: &'static str) -> (r: DecodeError)
    ensures
        r.kind == (DecodeErrorKind::TypeMismatch { variant, field, expected }),
        r.path@.len() == 0,
{
    error_at(DecodeErrorKind::TypeMismatch { variant, field, expected })
}

/// The members of an object.
pub fn object_members<'a>(v: &'a JsonValue, variant: &'static str) -> (r: Result<&'a Vec<(String, JsonValue)>, DecodeError>)
    ensures
        r matches Err(e) ==> !(e.kind is MalformedInput),
        match r {
            Ok(o) => *v == JsonValue::Object(*o),
            Err(e) => !(*v is Object) && e.kind == (DecodeErrorKind::TypeMismatch {
                variant,
                field: "attrs",
                expected: "object",
            }),
        },
{
    match v {
        JsonValue::Object(o) => Ok(o),
        _ => Err(mismatch(variant, "attrs", "object")),
    }
}

/// Fails on the first key that is not one of `allowed`.
pub fn check_keys(o: &Vec<(String, JsonValue)>, variant: &'static str, allowed: Vec<&str>) -> (r: Result<(), DecodeError>)
    ensures
        r matches Err(e) ==> blames_member(o@, e),
        r matches Err(e) ==> !(e.kind is MalformedInput),
        r is Ok <==> keys_within(o@, allowed@),
        r matches Err(e) ==> e.kind matches DecodeErrorKind::UnexpectedField { variant: v, field } && v == variant
            && first_unexpected(o@, allowed@, field@) && e.path@.len() == 0,
{
    match first_unknown_key(o, &allowed) {
        None => Ok(()),
        Some(i) => Err(error_at(DecodeErrorKind::UnexpectedField { variant, field: o[i].0.clone() })),
    }
}

/// Reads a required string member.
pub fn str_field(o: &Vec<(String, JsonValue)>, variant: &'static str, key: &'static str) -> (r: Result<String, DecodeError>)
    ensures
        r matches Err(e) ==> e.path@.len() == 0 && if member(o@, key@) is None {
            e.kind == (DecodeErrorKind::MissingField { variant, field: key })
        } else {
            e.kind matches DecodeErrorKind::TypeMismatch { variant: v, field, .. } && v == variant && field == key
        },
        r matches Err(e) ==> blames_member(o@, e),
        r matches Err(e) ==> !(e.kind is MalformedInput),
        match r {
            Ok(s) => str_of(member(o@, key@), s),
            Err(_) => forall|s: String| !str_of(member(o@, key@), s),
        },
{
    match find_member(o, key) {
        None => Err(missing(variant, key)),
        Some(i) => match &o[i].1 {
            JsonValue::Str(s) => Ok(s.clone()),
            _ => Err(mismatch(variant, key, "string")),
        },
    }
}

/// Reads an optional string member.
pub fn opt_str_field(o: &Vec<(String, JsonValue)>, variant: &'static str, key: &'static str) -> (r: Result<Option<String>, DecodeError>)
    ensures
        r matches Err(e) ==> !(e.kind is MalformedInput),
        match r {
            Ok(s) => opt_str_of(member(o@, key@), s),
            Err(_) => forall|s: Option<String>| !opt_str_of(member(o@, key@), s),
        },
{
    match find_member(o, key) {
        None => Ok(None),
        Some(i) => match &o[i].1 {
            JsonValue::Null => Ok(None),
            JsonValue::Str(s) => Ok(Some(s.clone())),
            _ => Err(mismatch(variant, key, "string")),
        },
    }
}

/// Reads an integer out of a value, within `lo..=hi`.
pub fn int_value(v: &JsonValue, variant: &'static str, key: &'static str, lo: i64, hi: i64) -> (r: Result<i64, DecodeError>)
    ensures
        r matches Err(e) ==> e.path@.len() == 0 && (e.kind matches DecodeErrorKind::TypeMismatch { variant: v, .. } && v == variant),
        r matches Err(e) ==> e.kind matches DecodeErrorKind::TypeMismatch { field, .. } && field == key,
        r matches Err(e) ==> !(e.kind is MalformedInput),
        match r {
            Ok(x) => lo <= x <= hi && int_of(Some(*v), x as int),
            Err(_) => forall|x: int| lo <= x <= hi ==> !int_of(Some(*v), x),
        },
{
    match v {
        JsonValue::Number(JsonNumber::Int(i)) => {
            if lo <= *i && *i <= hi {
                Ok(*i)
            } else {
                Err(mismatch(variant, key, "integer in range"))
            }
        },
        _ => Err(mismatch(variant, key, "integer")),
    }
}

/// Reads a required integer member, within `lo..=hi`.
pub fn int_field(o: &Vec<(String, JsonValue)>, variant: &'static str, key: &'static str, lo: i64, hi: i64) -> (r: Result<i64, DecodeError>)
    ensures
        r matches Err(e) ==> e.path@.len() == 0 && if member(o@, key@) is None {
            e.kind == (DecodeErrorKind::MissingField { variant, field: key })
        } else {
            e.kind matches DecodeErrorKind::TypeMismatch { variant: v, field, .. } && v == variant && field == key
        },
        r matches Err(e) ==> blames_member(o@, e),
        r matches Err(e) ==> !(e.kind is MalformedInput),
        match r {
            Ok(x) => lo <= x <= hi && int_of(member(o@, key@), x as int),
            Err(_) => forall|x: int| lo <= x <= hi ==> !int_of(member(o@, key@), x),
        },
{
    match find_member(o, key) {
        None => Err(missing(variant, key)),
        Some(i) => int_value(&o[i].1, variant, key, lo, hi),
    }
}

/// Reads an optional integer member, within `lo..=hi`.
pub fn opt_int_field(o: &Vec<(String, JsonValue)>, variant: &'static str, key: &'static str, lo: i64, hi: i64) -> (r: Result<Option<i64>, DecodeError>)
    ensures
        r matches Err(e) ==> !(e.kind is MalformedInput),
        match r {
            Ok(None) => absent(member(o@, key@)),
            Ok(Some(x)) => lo <= x <= hi && int_of(member(o@, key@), x as int),
            Err(_) => !absent(member(o@, key@)) && forall|x: int| lo <= x <= hi ==> !int_of(member(o@, key@), x),
        },
{
    match find_member(o, key) {
        None => Ok(None),
        Some(i) => match &o[i].1 {
            JsonValue::Null => Ok(None),
            v => match int_value(v, variant, key, lo, hi) {
                Ok(x) => Ok(Some(x)),
                Err(e) => Err(e),
            },
        },
    }
}

/// Reads an optional `u16` member.
pub fn opt_u16_field(o: &Vec<(String, JsonValue)>, variant: &'static str, key: &'static str) -> (r: Result<Option<u16>, DecodeError>)
    ensures
        r matches Err(e) ==> !(e.kind is MalformedInput),
        match r {
            Ok(x) => opt_u16_of(member(o@, key@), x),
            Err(_) => forall|x: Option<u16>| !opt_u16_of(member(o@, key@), x),
        },
{
    match opt_int_field(o, variant, key, 0, 65535) {
        Ok(None) => Ok(None),
        Ok(Some(x)) => Ok(Some(x as u16)),
        Err(e) => Err(e),
    }
}

/// Reads an optional `u32` member.
pub fn opt_u32_field(o: &Vec<(String, JsonValue)>, variant: &'static str, key: &'static str) -> (r: Result<Option<u32>, DecodeError>)
    ensures
        r matches Err(e) ==> !(e.kind is MalformedInput),
        match r {
            Ok(x) => opt_u32_of(member(o@, key@), x),
            Err(_) => forall|x: Option<u32>| !opt_u32_of(member(o@, key@), x),
        },
{
    match opt_int_field(o, variant, key, 0, 4294967295) {
        Ok(None) => Ok(None),
        Ok(Some(x)) => Ok(Some(x as u32)),
        Err(e) => Err(e),
    }
}

/// Reads an optional boolean member.
pub fn opt_bool_field(o: &Vec<(String, JsonValue)>, variant: &'static str, key: &'static str) -> (r: Result<Option<bool>, DecodeError>)
    ensures
        r matches Err(e) ==> !(e.kind is MalformedInput),
        match r {
            Ok(x) => opt_bool_of(member(o@, key@), x),
            Err(_) => forall|x: Option<bool>| !opt_bool_of(member(o@, key@), x),
        },
{
    match find_member(o, key) {
        None => Ok(None),
        Some(i) => match &o[i].1 {
            JsonValue::Null => Ok(None),
            JsonValue::Bool(b) => Ok(Some(*b)),
            _ => Err(mismatch(variant, key, "boolean")),
        },
    }
}

/// Reads an optional number member, integer or not.
pub fn opt_number_field(o: &Vec<(String, JsonValue)>, variant: &'static str, key: &'static str) -> (r: Result<Option<JsonNumber>, DecodeError>)
    ensures
        r matches Err(e) ==> !(e.kind is MalformedInput),
        match r {
            Ok(x) => opt_number_of(member(o@, key@), x),
            Err(_) => forall|x: Option<JsonNumber>| !opt_number_of(member(o@, key@), x),
        },
{
    match find_member(o, key) {
        None => Ok(None),
        Some(i) => match &o[i].1 {
            JsonValue::Null => Ok(None),
            JsonValue::Number(JsonNumber::Int(x)) => Ok(Some(JsonNumber::Int(*x))),
            JsonValue::Number(JsonNumber::Decimal(t)) => Ok(Some(JsonNumber::Decimal(t.clone()))),
            _ => Err(mismatch(variant, key, "number")),
        },
    }
}

/// Reads an optional array of `u16`.
pub fn opt_u16s_field(o: &Vec<(String, JsonValue)>, variant: &'static str, key: &'static str) -> (r: Result<Option<Vec<u16>>, DecodeError>)
    ensures
        r matches Err(e) ==> !(e.kind is MalformedInput),
        match r {
            Ok(x) => opt_u16s_of(member(o@, key@), x),
            Err(_) => forall|x: Option<Vec<u16>>| !opt_u16s_of(member(o@, key@), x),
        },
{
    match find_member(o, key) {
        None => Ok(None),
        Some(i) => match &o[i].1 {
            JsonValue::Null => Ok(None),
            JsonValue::Array(a) => {
                let mut w: Vec<u16> = Vec::new();
                let mut k: usize = 0;
                while k < a.len()
                    invariant
                        member(o@, key@) == Some(JsonValue::Array(*a)),
                        k <= a@.len(),
                        w@.len() == k,
                        forall|x: int| 0 <= x < k ==> int_of(Some(#[trigger] a@[x]), w@[x] as int),
                    decreases a@.len() - k,
                {
                    match int_value(&a[k], variant, key, 0, 65535) {
                        Ok(x) => w.push(x as u16),
                        Err(e) => {
                            assert forall|x: Option<Vec<u16>>| !opt_u16s_of(member(o@, key@), x) by {
                                if let Some(v) = x {
                                    if member(o@, key@) == Some(JsonValue::Array(*a)) && u16s_of(a@, v@) {
                                        let y = v@[k as int];
                                        assert(int_of(Some(a@[k as int]), y as int));
                                        assert(0 <= y as int <= 65535);
                                    }
                                }
                            }
                            return Err(e);
                        },
                    }
                    k = k + 1;
                }
                assert(u16s_of(a@, w@));
                Ok(Some(w))
            },
            _ => Err(mismatch(variant, key, "array")),
        },
    }
}

} // verus!
