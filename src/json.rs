use vstd::prelude::*;

use crate::text::{
    debug_quoted, debug_text, decimal, decimal_string, same_text, show_bool, show_opt_text,
    shown_bool, shown_opt_text,
};

verus! {

/// A JSON value as the scenarios read and build it.
///
/// Numbers that are non-negative integers fitting in 64 bits are held as
/// `UInt`; every other number is kept in its textual form. An object keeps
/// its members in order; when a key occurs more than once, a lookup finds
/// its first occurrence.
#[derive(Debug)]
pub enum JsonValue {
    Null,
    Bool(bool),
    UInt(u64),
    OtherNumber(String),
    Str(String),
    Array(Vec<JsonValue>),
    Object(Vec<(String, JsonValue)>),
}

/// The value of the first member of `members` named `key`.
pub open spec fn member(members: Seq<(String, JsonValue)>, key: Seq<char>) -> Option<JsonValue>
    decreases members.len(),
{
    if members.len() == 0 {
        None
    } else if members[0].0@ == key {
        Some(members[0].1)
    } else {
        member(members.drop_first(), key)
    }
}

/// The first member named `key` is the one at `i`.
pub proof fn lemma_member_at(m: Seq<(String, JsonValue)>, i: int, key: Seq<char>)
    requires
        0 <= i < m.len(),
        m[i].0@ == key,
        forall|j: int| 0 <= j < i ==> (#[trigger] m[j]).0@ != key,
    ensures
        member(m, key) == Some(m[i].1),
    decreases i,
{
    if i > 0 {
        assert(m.drop_first()[i - 1] == m[i]);
        assert forall|j: int| 0 <= j < i - 1 implies (#[trigger] m.drop_first()[j]).0@ != key by {
            assert(m.drop_first()[j] == m[j + 1]);
        }
        lemma_member_at(m.drop_first(), i - 1, key);
    }
}

/// The member `key` of `v`, when `v` is an object that has one.
pub open spec fn field(v: Option<JsonValue>, key: Seq<char>) -> Option<JsonValue> {
    match v {
        Some(JsonValue::Object(m)) => member(m@, key),
        _ => None,
    }
}

/// The flag at `v`, when it is one.
pub open spec fn bool_of(v: Option<JsonValue>) -> Option<bool> {
    match v {
        Some(JsonValue::Bool(b)) => Some(b),
        _ => None,
    }
}

/// The unsigned integer at `v`, when it is one.
pub open spec fn u64_of(v: Option<JsonValue>) -> Option<u64> {
    match v {
        Some(JsonValue::UInt(n)) => Some(n),
        _ => None,
    }
}

/// The text at `v`, when it is a string.
pub open spec fn str_of(v: Option<JsonValue>) -> Option<Seq<char>> {
    match v {
        Some(JsonValue::Str(s)) => Some(s@),
        _ => None,
    }
}

/// The items at `v`, when it is an array.
pub open spec fn items_of(v: Option<JsonValue>) -> Option<Seq<JsonValue>> {
    match v {
        Some(JsonValue::Array(a)) => Some(a@),
        _ => None,
    }
}

/// `v` is present and null.
pub open spec fn is_null(v: Option<JsonValue>) -> bool {
    v == Some(JsonValue::Null)
}

/// `v` is an array.
pub open spec fn is_array(v: Option<JsonValue>) -> bool {
    v is Some && v->0 is Array
}

/// `v` is an object.
pub open spec fn is_object(v: Option<JsonValue>) -> bool {
    v is Some && v->0 is Object
}

/// Whether one of `items` is the string `s`.
pub open spec fn has_str(items: Option<Seq<JsonValue>>, s: Seq<char>) -> bool {
    items is Some && exists|i: int|
        0 <= i < items->0.len() && #[trigger] str_of(Some(items->0[i])) == Some(s)
}

/// Forgets the reference.
pub open spec fn deref(v: Option<&JsonValue>) -> Option<JsonValue> {
    match v {
        Some(x) => Some(*x),
        None => None,
    }
}

/// The member `key` of `v`, when `v` is an object that has one.
pub fn get<'a>(v: Option<&'a JsonValue>, key: &str) -> (r: Option<&'a JsonValue>)
    ensures
        deref(r) == field(deref(v), key@),
{
    let x = match v {
        Some(x) => x,
        None => { return None; },
    };
    match x {
        JsonValue::Object(members) => {
            assert(deref(v) == Some(JsonValue::Object(*members)));
            let mut i: usize = 0;
            assert(members@.subrange(0, members@.len() as int) == members@);
            while i < members.len()
                invariant
                    deref(v) == Some(JsonValue::Object(*members)),
                    i <= members@.len(),
                    member(members@, key@) == member(members@.subrange(i as int, members@.len() as int), key@),
                decreases members@.len() - i,
            {
                let ghost rest = members@.subrange(i as int, members@.len() as int);
                assert(rest.drop_first() == members@.subrange(i as int + 1, members@.len() as int));
                assert(rest[0] == members@[i as int]);
                if same_text(members[i].0.as_str(), key) {
                    return Some(&members[i].1);
                }
                i = i + 1;
            }
            None
        },
        _ => None,
    }
}

/// The flag at `v`, when it is one.
pub fn as_bool(v: Option<&JsonValue>) -> (r: Option<bool>)
    ensures
        r == bool_of(deref(v)),
{
    match v {
        Some(JsonValue::Bool(b)) => Some(*b),
        _ => None,
    }
}

/// The unsigned integer at `v`, when it is one.
pub fn as_u64(v: Option<&JsonValue>) -> (r: Option<u64>)
    ensures
        r == u64_of(deref(v)),
{
    match v {
        Some(JsonValue::UInt(n)) => Some(*n),
        _ => None,
    }
}

/// The text at `v`, when it is a string.
pub fn as_str<'a>(v: Option<&'a JsonValue>) -> (r: Option<&'a String>)
    ensures
        match r {
            Some(s) => str_of(deref(v)) == Some(s@),
            None => str_of(deref(v)) is None,
        },
{
    match v {
        Some(JsonValue::Str(s)) => Some(s),
        _ => None,
    }
}

/// The items at `v`, when it is an array.
pub fn as_items<'a>(v: Option<&'a JsonValue>) -> (r: Option<&'a Vec<JsonValue>>)
    ensures
        match r {
            Some(a) => items_of(deref(v)) == Some(a@),
            None => items_of(deref(v)) is None,
        },
{
    match v {
        Some(JsonValue::Array(a)) => Some(a),
        _ => None,
    }
}

/// Whether `v` is the string `s`.
pub fn str_is(v: Option<&JsonValue>, s: &str) -> (r: bool)
    ensures
        r == (str_of(deref(v)) == Some(s@)),
{
    match v {
        Some(JsonValue::Str(t)) => same_text(t.as_str(), s),
        _ => false,
    }
}

/// Whether `v` is present and null.
pub fn check_null(v: Option<&JsonValue>) -> (r: bool)
    ensures
        r == is_null(deref(v)),
{
    match v {
        Some(JsonValue::Null) => true,
        _ => false,
    }
}

/// Whether `v` is an array.
pub fn check_array(v: Option<&JsonValue>) -> (r: bool)
    ensures
        r == is_array(deref(v)),
{
    match v {
        Some(JsonValue::Array(_)) => true,
        _ => false,
    }
}

/// Whether `v` is an object.
pub fn check_object(v: Option<&JsonValue>) -> (r: bool)
    ensures
        r == is_object(deref(v)),
{
    match v {
        Some(JsonValue::Object(_)) => true,
        _ => false,
    }
}

/// Whether `v` is an array one of whose items is the string `s`.
pub fn contains_str(v: Option<&JsonValue>, s: &str) -> (r: bool)
    ensures
        r == has_str(items_of(deref(v)), s@),
{
    let x = match v {
        Some(x) => x,
        None => { return false; },
    };
    match x {
        JsonValue::Array(items) => {
            assert(deref(v) == Some(JsonValue::Array(*items)));
            let mut i: usize = 0;
            while i < items.len()
                invariant
                    deref(v) == Some(JsonValue::Array(*items)),
                    i <= items@.len(),
                    forall|j: int| 0 <= j < i ==> #[trigger] str_of(Some(items@[j])) != Some(s@),
                decreases items@.len() - i,
            {
                if str_is(Some(&items[i]), s) {
                    assert(str_of(Some(items@[i as int])) == Some(s@));
                    return true;
                }
                i = i + 1;
            }
            false
        },
        _ => false,
    }
}

/// Shows the text at `v`, as `Some("...")` or `None`.
pub fn show_text_at(v: Option<&JsonValue>) -> (r: String)
    ensures
        r@ == shown_opt_text(str_of(deref(v))),
{
    show_opt_text(as_str(v))
}

/// How the value at `v` is shown in a detail: scalars as written, strings
/// quoted, containers by kind, and an absent value as `nothing`.
pub open spec fn shown_value(v: Option<JsonValue>) -> Seq<char> {
    match v {
        None => "nothing"@,
        Some(JsonValue::Null) => "null"@,
        Some(JsonValue::Bool(b)) => shown_bool(b),
        Some(JsonValue::UInt(n)) => decimal(n as nat),
        Some(JsonValue::OtherNumber(t)) => t@,
        Some(JsonValue::Str(t)) => debug_text(t@),
        Some(JsonValue::Array(_)) => "an array"@,
        Some(JsonValue::Object(_)) => "an object"@,
    }
}

/// Shows the value at `v`.
pub fn show_value(v: Option<&JsonValue>) -> (r: String)
    ensures
        r@ == shown_value(deref(v)),
{
    match v {
        None => String::from_str("nothing"),
        Some(JsonValue::Null) => String::from_str("null"),
        Some(JsonValue::Bool(b)) => show_bool(*b),
        Some(JsonValue::UInt(n)) => decimal_string(*n as u128),
        Some(JsonValue::OtherNumber(t)) => t.clone(),
        Some(JsonValue::Str(t)) => debug_quoted(t.as_str()),
        Some(JsonValue::Array(_)) => String::from_str("an array"),
        Some(JsonValue::Object(_)) => String::from_str("an object"),
    }
}

} // verus!
