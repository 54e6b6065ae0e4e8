//! JSON text, as the response decoder sees it: an object is a list of members
//! whose values are kept as raw JSON text, and each value is read on demand.
//! The parsing itself is done by `serde_json`.

use vstd::prelude::*;

verus! {

#[verifier::external_type_specification]
#[verifier::external_body]
pub struct ExJsonParseError(serde_json::Error);

/// The members of the JSON object written in `text`, each with the raw JSON text
/// of its value, or `None` where `text` is not a JSON object.
pub uninterp spec fn json_object_of(text: Seq<char>) -> Option<Seq<(Seq<char>, Seq<char>)>>;

/// The elements of the JSON array written in `text`, each as raw JSON text, or
/// `None` where `text` is not a JSON array.
pub uninterp spec fn json_array_of(text: Seq<char>) -> Option<Seq<Seq<char>>>;

/// The 64-bit signed integer written in `text`, or `None` where `text` is not one.
pub uninterp spec fn json_i64_of(text: Seq<char>) -> Option<i64>;

/// The boolean written in `text`, or `None` where `text` is not one.
pub uninterp spec fn json_bool_of(text: Seq<char>) -> Option<bool>;

/// The string written in `text`, or `None` where `text` is not a JSON string.
pub uninterp spec fn json_string_of(text: Seq<char>) -> Option<Seq<char>>;

/// `Some(None)` where `text` is `null`, `Some(Some(s))` where it is the JSON
/// string `s`, and `None` otherwise.
pub uninterp spec fn json_opt_string_of(text: Seq<char>) -> Option<Option<Seq<char>>>;

/// A list of members with each component seen as a sequence of characters.
pub open spec fn members_view(ms: Seq<(String, String)>) -> Seq<(Seq<char>, Seq<char>)> {
    ms.map_values(|m: (String, String)| (m.0@, m.1@))
}

/// The raw value of the first member named `key`.
pub open spec fn member(ms: Seq<(Seq<char>, Seq<char>)>, key: Seq<char>) -> Option<Seq<char>>
    decreases ms.len(),
{
    if ms.len() == 0 {
        None
    } else if ms[0].0 == key {
        Some(ms[0].1)
    } else {
        member(ms.drop_first(), key)
    }
}

/// Relies on `serde_json::from_str` into a `BTreeMap<String, Box<RawValue>>`:
/// the members of a JSON object with the raw text of their values.
#[verifier::external_body]
pub(crate) fn parse_object(text: &str) -> (r: Result<Vec<(String, String)>, serde_json::Error>)
    ensures
        r is Ok <==> json_object_of(text@) is Some,
        r matches Ok(ms) ==> json_object_of(text@) == Some(members_view(ms@)),
{
    let map: std::collections::BTreeMap<String, Box<serde_json::value::RawValue>> =
        serde_json::from_str(text)?;
    Ok(map.into_iter().map(|(k, v)| (k, v.get().to_string())).collect())
}

/// Relies on `serde_json::from_str` into a `Vec<Box<RawValue>>`: the elements of a
/// JSON array with their raw text.
#[verifier::external_body]
pub(crate) fn parse_array(text: &str) -> (r: Result<Vec<String>, serde_json::Error>)
    ensures
        r is Ok <==> json_array_of(text@) is Some,
        r matches Ok(items) ==> json_array_of(text@) == Some(items@.map_values(|s: String| s@)),
{
    let items: Vec<Box<serde_json::value::RawValue>> = serde_json::from_str(text)?;
    Ok(items.into_iter().map(|v| v.get().to_string()).collect())
}

/// Relies on `serde_json::from_str` into an `i64`.
#[verifier::external_body]
pub(crate) fn parse_i64(text: &str) -> (r: Result<i64, serde_json::Error>)
    ensures
        r is Ok <==> json_i64_of(text@) is Some,
        r matches Ok(v) ==> json_i64_of(text@) == Some(v),
{
    serde_json::from_str(text)
}

/// Relies on `serde_json::from_str` into a `bool`.
#[verifier::external_body]
pub(crate) fn parse_bool(text: &str) -> (r: Result<bool, serde_json::Error>)
    ensures
        r is Ok <==> json_bool_of(text@) is Some,
        r matches Ok(v) ==> json_bool_of(text@) == Some(v),
{
    serde_json::from_str(text)
}

/// Relies on `serde_json::from_str` into a `String`.
#[verifier::external_body]
pub(crate) fn parse_string(text: &str) -> (r: Result<String, serde_json::Error>)
    ensures
        r is Ok <==> json_string_of(text@) is Some,
        r matches Ok(v) ==> json_string_of(text@) == Some(v@),
{
    serde_json::from_str(text)
}

/// Relies on `serde_json::from_str` into an `Option<String>`, which reads `null`
/// as `None`.
#[verifier::external_body]
pub(crate) fn parse_opt_string(text: &str) -> (r: Result<Option<String>, serde_json::Error>)
    ensures
        r is Ok <==> json_opt_string_of(text@) is Some,
        r matches Ok(v) ==> json_opt_string_of(text@) == Some(
            match v {
                Some(s) => Some(s@),
                None => None,
            },
        ),
{
    serde_json::from_str(text)
}

/// The raw value of the first member of `ms` named `key`.
pub fn find_member<'a>(ms: &'a Vec<(String, String)>, key: &str) -> (r: Option<&'a String>)
    ensures
        r is None <==> member(members_view(ms@), key@) is None,
        r matches Some(v) ==> member(members_view(ms@), key@) == Some(v@),
{
    let wanted = String::from_str(key);
    let ghost mv = members_view(ms@);
    let mut i: usize = 0;
    assert(mv.skip(0) =~= mv);
    while i < ms.len()
        invariant
            0 <= i <= ms.len(),
            mv == members_view(ms@),
            wanted@ == key@,
            member(mv, key@) == member(mv.skip(i as int), key@),
        decreases ms.len() - i,
    {
        assert(mv.skip(i as int).drop_first() =~= mv.skip(i + 1));
        assert(mv.skip(i as int)[0] == (ms@[i as int].0@, ms@[i as int].1@));
        if ms[i].0 == wanted {
            assert(member(mv.skip(i as int), key@) == Some(ms@[i as int].1@));
            return Some(&ms[i].1);
        }
        i = i + 1;
    }
    assert(mv.skip(i as int).len() == 0);
    None
}

} // verus!
