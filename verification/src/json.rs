//! Reading a decoded JSON reply. The value is `serde_json`'s; what its
//! accessors return is named here, and the traversal built on them is
//! verified against those names.

use vstd::prelude::*;
use vstd::string::*;
use crate::text::{opt_text, texts_view};

verus! {

/// A decoded JSON value of `serde_json`.
#[verifier::external_type_specification]
#[verifier::external_body]
pub struct ExValue(serde_json::Value);

/// The member `key` of a JSON object, as `Value::get` with a string
/// returns it: `None` for a value that is no object or has no such member.
pub uninterp spec fn json_member(v: serde_json::Value, key: Seq<char>) -> Option<
    serde_json::Value,
>;

/// The elements of a JSON array, as `Value::as_array` returns them: `None`
/// for a value that is no array.
pub uninterp spec fn json_array(v: serde_json::Value) -> Option<Seq<serde_json::Value>>;

/// The content of a JSON string, as `Value::as_str` returns it: `None` for
/// a value that is no string.
pub uninterp spec fn json_str(v: serde_json::Value) -> Option<Seq<char>>;

/// The compact JSON text of a value, as its `Display` writes it.
pub uninterp spec fn json_text(v: serde_json::Value) -> Seq<char>;

/// Looks a member up by `Value::get`. The result is named by [`json_member`].
#[verifier::external_body]
pub(crate) fn get_member<'a>(v: &'a serde_json::Value, key: &str) -> (r: Option<
    &'a serde_json::Value,
>)
    ensures
        match r {
            Some(m) => json_member(*v, key@) == Some(*m),
            None => json_member(*v, key@) is None,
        },
{
    v.get(key)
}

/// The elements of an array, by `Value::as_array`. The result is named by
/// [`json_array`].
#[verifier::external_body]
pub(crate) fn get_array<'a>(v: &'a serde_json::Value) -> (r: Option<&'a Vec<serde_json::Value>>)
    ensures
        match r {
            Some(items) => json_array(*v) == Some(items@),
            None => json_array(*v) is None,
        },
{
    v.as_array()
}

/// The content of a string, by `Value::as_str`. The result is named by
/// [`json_str`].
#[verifier::external_body]
pub(crate) fn get_str<'a>(v: &'a serde_json::Value) -> (r: Option<&'a str>)
    ensures
        match r {
            Some(s) => json_str(*v) == Some(s@),
            None => json_str(*v) is None,
        },
{
    v.as_str()
}

/// The compact JSON text of a value, by its `Display`. The result is named
/// by [`json_text`].
#[verifier::external_body]
pub(crate) fn render(v: &serde_json::Value) -> (r: String)
    ensures
        r@ == json_text(*v),
{
    v.to_string()
}

/// A value that may be missing, without the reference.
pub open spec fn found(v: Option<&serde_json::Value>) -> Option<serde_json::Value> {
    match v {
        Some(x) => Some(*x),
        None => None,
    }
}

/// The member `key` of a value that may be missing; missing where the value
/// is missing, is no object or has no such member.
pub open spec fn field_of(v: Option<serde_json::Value>, key: Seq<char>) -> Option<
    serde_json::Value,
> {
    match v {
        Some(x) => json_member(x, key),
        None => None,
    }
}

/// The element at `i` of a value that may be missing; missing where the
/// value is missing, is no array or is shorter.
pub open spec fn item_of(v: Option<serde_json::Value>, i: int) -> Option<serde_json::Value> {
    match v {
        Some(x) => match json_array(x) {
            Some(items) => if 0 <= i < items.len() {
                Some(items[i])
            } else {
                None
            },
            None => None,
        },
        None => None,
    }
}

/// The string content of a value that may be missing.
pub open spec fn str_of(v: Option<serde_json::Value>) -> Option<Seq<char>> {
    match v {
        Some(x) => json_str(x),
        None => None,
    }
}

/// The elements of a value that may be missing.
pub open spec fn items_of(v: Option<serde_json::Value>) -> Option<Seq<serde_json::Value>> {
    match v {
        Some(x) => json_array(x),
        None => None,
    }
}

/// The member `key` of `v`, if there is one.
pub fn field<'a>(v: Option<&'a serde_json::Value>, key: &str) -> (r: Option<&'a serde_json::Value>)
    ensures
        found(r) == field_of(found(v), key@),
{
    match v {
        Some(x) => get_member(x, key),
        None => None,
    }
}

/// The elements of `v`, if it is an array.
pub fn items<'a>(v: Option<&'a serde_json::Value>) -> (r: Option<&'a Vec<serde_json::Value>>)
    ensures
        match r {
            Some(list) => items_of(found(v)) == Some(list@),
            None => items_of(found(v)) is None,
        },
{
    match v {
        Some(x) => get_array(x),
        None => None,
    }
}

/// The element at `i` of `v`, if there is one.
pub fn item<'a>(v: Option<&'a serde_json::Value>, i: usize) -> (r: Option<&'a serde_json::Value>)
    ensures
        found(r) == item_of(found(v), i as int),
{
    match items(v) {
        Some(list) => if i < list.len() {
            Some(&list[i])
        } else {
            None
        },
        None => None,
    }
}

/// The string content of `v`, if it is a string.
pub fn string<'a>(v: Option<&'a serde_json::Value>) -> (r: Option<&'a str>)
    ensures
        match r {
            Some(s) => str_of(found(v)) == Some(s@),
            None => str_of(found(v)) is None,
        },
{
    match v {
        Some(x) => get_str(x),
        None => None,
    }
}

/// For each value of a list, the string content of its member `key`.
pub open spec fn member_texts(list: Seq<serde_json::Value>, key: Seq<char>) -> Seq<
    Option<Seq<char>>,
> {
    Seq::new(list.len(), |i: int| str_of(json_member(list[i], key)))
}

/// For each value of a list, the string content of its element at `at`.
pub open spec fn element_texts(list: Seq<serde_json::Value>, at: int) -> Seq<Option<Seq<char>>> {
    Seq::new(list.len(), |i: int| str_of(item_of(Some(list[i]), at)))
}

fn owned(s: Option<&str>) -> (r: Option<String>)
    ensures
        match r {
            Some(t) => s is Some && t@ == s->0@,
            None => s is None,
        },
{
    match s {
        Some(t) => Some(t.to_owned()),
        None => None,
    }
}

/// Reads the member `key` of every value of a list as a string.
pub fn member_strings(list: &Vec<serde_json::Value>, key: &str) -> (r: Vec<Option<String>>)
    ensures
        texts_view(r@) == member_texts(list@, key@),
{
    let mut r: Vec<Option<String>> = Vec::new();
    let mut i: usize = 0;
    while i < list.len()
        invariant
            i <= list.len(),
            r@.len() == i,
            forall|j: int|
                0 <= j < i ==> opt_text(#[trigger] r@[j]) == str_of(json_member(list@[j], key@)),
        decreases list.len() - i,
    {
        let t = owned(string(field(Some(&list[i]), key)));
        assert(opt_text(t) == str_of(json_member(list@[i as int], key@)));
        r.push(t);
        i = i + 1;
    }
    proof {
        assert(texts_view(r@) =~= member_texts(list@, key@));
    }
    r
}

/// Reads the element at `at` of every value of a list as a string.
pub fn element_strings(list: &Vec<serde_json::Value>, at: usize) -> (r: Vec<Option<String>>)
    ensures
        texts_view(r@) == element_texts(list@, at as int),
{
    let mut r: Vec<Option<String>> = Vec::new();
    let mut i: usize = 0;
    while i < list.len()
        invariant
            i <= list.len(),
            r@.len() == i,
            forall|j: int|
                0 <= j < i ==> opt_text(#[trigger] r@[j]) == str_of(
                    item_of(Some(list@[j]), at as int),
                ),
        decreases list.len() - i,
    {
        let t = owned(string(item(Some(&list[i]), at)));
        assert(opt_text(t) == str_of(item_of(Some(list@[i as int]), at as int)));
        r.push(t);
        i = i + 1;
    }
    proof {
        assert(texts_view(r@) =~= element_texts(list@, at as int));
    }
    r
}

} // verus!
