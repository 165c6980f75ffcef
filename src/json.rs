//! A generic JSON value, held as plain data, and lookups on its objects.
use vstd::prelude::*;

verus! {

#[verifier::external_type_specification]
#[verifier::external_body]
pub struct ExSerdeNumber(serde_json::Number);

/// Relies on the derived `Clone` of serde_json::Number: the copy is the
/// same number.
pub assume_specification[ <serde_json::Number as Clone>::clone ](n: &serde_json::Number) -> (r: serde_json::Number)
    ensures
        r == *n,
;

/// A JSON number: an integer that fits in `i64`, or any other number as
/// serde_json holds it (a larger integer or a fraction).
#[derive(Debug, PartialEq)]
pub enum JsonNumber {
    Int(i64),
    Decimal(serde_json::Number),
}

/// A generic JSON value. An object keeps its members in order; where a key
/// occurs twice, the later member is the one that counts.
#[derive(Debug, PartialEq)]
pub enum JsonValue {
    Null,
    Bool(bool),
    Number(JsonNumber),
    Str(String),
    Array(Vec<JsonValue>),
    Object(Vec<(String, JsonValue)>),
}

/// The value that an object's members give to `key`: the last member with
/// that key, if any.
pub open spec fn member(m: Seq<(String, JsonValue)>, key: Seq<char>) -> Option<JsonValue>
    decreases m.len(),
{
    if m.len() == 0 {
        None
    } else if m.last().0@ == key {
        Some(m.last().1)
    } else {
        member(m.drop_last(), key)
    }
}

/// `key` is one of `allowed`.
pub open spec fn key_allowed(key: Seq<char>, allowed: Seq<&str>) -> bool {
    exists|k: int| 0 <= k < allowed.len() && #[trigger] allowed[k]@ == key
}

/// Every key of the members is one of `allowed`.
pub open spec fn keys_within(m: Seq<(String, JsonValue)>, allowed: Seq<&str>) -> bool {
    forall|i: int| 0 <= i < m.len() ==> key_allowed(#[trigger] m[i].0@, allowed)
}

/// `key` is the first key of the members that is not one of `allowed`.
pub open spec fn first_unexpected(m: Seq<(String, JsonValue)>, allowed: Seq<&str>, key: Seq<char>) -> bool {
    exists|i: int|
        0 <= i < m.len() && #[trigger] m[i].0@ == key && !key_allowed(key, allowed) && keys_within(
            m.subrange(0, i),
            allowed,
        )
}

/// The members' keys are `ks`, in this order.
pub open spec fn keys_are(m: Seq<(String, JsonValue)>, ks: Seq<&str>) -> bool {
    &&& m.len() == ks.len()
    &&& forall|i: int| 0 <= i < m.len() ==> #[trigger] m[i].0@ == ks[i]@
}

/// The key `k` where its field is present, nothing otherwise.
pub open spec fn opt_key(present: bool, k: &str) -> Seq<&str> {
    if present {
        seq![k]
    } else {
        seq![]
    }
}

/// Compares a key with a name.
pub fn same_text(a: &String, b: &str) -> (r: bool)
    ensures
        r == (a@ == b@),
{
    let t = String::from_str(b);
    *a == t
}

/// The index of the member that gives `key` its value.
pub fn find_member(m: &Vec<(String, JsonValue)>, key: &str) -> (r: Option<usize>)
    ensures
        match r {
            Some(i) => i < m@.len() && member(m@, key@) == Some(m@[i as int].1),
            None => member(m@, key@) is None,
        },
{
    let mut n: usize = m.len();
    assert(m@.subrange(0, n as int) == m@);
    while n > 0
        invariant
            n <= m@.len(),
            member(m@, key@) == member(m@.subrange(0, n as int), key@),
        decreases n,
    {
        let ghost s = m@.subrange(0, n as int);
        assert(s.drop_last() == m@.subrange(0, n - 1));
        if same_text(&m[n - 1].0, key) {
            return Some(n - 1);
        }
        n = n - 1;
    }
    None
}

/// The first key of the members that is not one of `allowed`.
pub fn first_unknown_key(m: &Vec<(String, JsonValue)>, allowed: &Vec<&str>) -> (r: Option<usize>)
    ensures
        match r {
            Some(i) => i < m@.len() && first_unexpected(m@, allowed@, m@[i as int].0@),
            None => keys_within(m@, allowed@),
        },
{
    let mut i: usize = 0;
    while i < m.len()
        invariant
            i <= m@.len(),
            keys_within(m@.subrange(0, i as int), allowed@),
        decreases m@.len() - i,
    {
        let mut k: usize = 0;
        let mut found = false;
        while k < allowed.len()
            invariant
                i < m@.len(),
                k <= allowed@.len(),
                found ==> exists|x: int| 0 <= x < allowed@.len() && #[trigger] allowed@[x]@ == m@[i as int].0@,
                !found ==> forall|x: int| 0 <= x < k ==> #[trigger] allowed@[x]@ != m@[i as int].0@,
            decreases allowed@.len() - k,
        {
            if same_text(&m[i].0, allowed[k]) {
                found = true;
            }
            k = k + 1;
        }
        if !found {
            assert(first_unexpected(m@, allowed@, m@[i as int].0@));
            return Some(i);
        }
        assert(keys_within(m@.subrange(0, i + 1), allowed@)) by {
            assert forall|x: int| 0 <= x < i + 1 implies key_allowed(#[trigger] m@.subrange(0, i + 1)[x].0@, allowed@) by {
                if x < i {
                    assert(m@.subrange(0, i + 1)[x] == m@.subrange(0, i as int)[x]);
                }
            }
        }
        i = i + 1;
    }
    assert(m@.subrange(0, m@.len() as int) == m@);
    None
}

} // verus!
