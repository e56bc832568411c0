//! JSON text for the bridge's build and provision calls, whose arguments nest
//! and may hold the separators the other calls use.
//!
//! Compact, as `serde_json` writes it: no whitespace, members and elements in
//! the order given. Strings, keys included, are quoted by `serde_json`.

use vstd::prelude::*;
use vstd::string::StringExecFns;
use crate::text::{integer, integer_text, join, joined, numeral, numeral_text, views};

verus! {

/// `serde_json`'s text of a JSON string holding `s`: quoted and escaped.
pub uninterp spec fn json_quoted(s: Seq<char>) -> Seq<char>;

/// Writes `s` as a JSON string with `serde_json`: `serde_json::Value::String`
/// of it, written by `Value`'s `Display`, which is compact `serde_json` text.
/// Claimed: the result is [`json_quoted`] of `s`, a function of `s` alone.
#[verifier::external_body]
pub(crate) fn quote(s: &str) -> (text: String)
    ensures
        text@ == json_quoted(s@),
{
    serde_json::Value::String(s.to_string()).to_string()
}

/// `"key":value`, the key quoted.
pub open spec fn member(key: Seq<char>, value: Seq<char>) -> Seq<char> {
    json_quoted(key) + ":"@ + value
}

/// An object of these members, in this order; each is a key and its value's text.
pub open spec fn object(members: Seq<(Seq<char>, Seq<char>)>) -> Seq<char> {
    "{"@ + joined(members.map_values(|m: (Seq<char>, Seq<char>)| member(m.0, m.1)), ","@) + "}"@
}

/// An array of these elements' texts, in this order.
pub open spec fn array(elements: Seq<Seq<char>>) -> Seq<char> {
    "["@ + joined(elements, ","@) + "]"@
}

/// An array of strings.
pub open spec fn string_array(strings: Seq<Seq<char>>) -> Seq<char> {
    array(strings.map_values(|s: Seq<char>| json_quoted(s)))
}

/// A string, or `null` for none.
pub open spec fn optional_string(value: Option<String>) -> Seq<char> {
    match value {
        Some(s) => json_quoted(s@),
        None => "null"@,
    }
}

/// `true` or `false`.
pub open spec fn boolean(value: bool) -> Seq<char> {
    if value {
        "true"@
    } else {
        "false"@
    }
}

/// A member: the quoted key, a colon, and the value's text.
pub fn member_text(key: &str, value: &str) -> (text: String)
    ensures
        text@ == member(key@, value@),
{
    let mut text = quote(key);
    text.append(":");
    text.append(value);
    text
}

/// Braces around members, which are already written with [`member_text`].
pub fn object_text(members: &Vec<String>) -> (text: String)
    ensures
        text@ == "{"@ + joined(views(members@), ","@) + "}"@,
{
    let mut text = String::from_str("{");
    let inner = join(members, ",");
    text.append(inner.as_str());
    text.append("}");
    text
}

/// Brackets around elements' texts.
pub fn array_text(elements: &Vec<String>) -> (text: String)
    ensures
        text@ == array(views(elements@)),
{
    let mut text = String::from_str("[");
    let inner = join(elements, ",");
    text.append(inner.as_str());
    text.append("]");
    text
}

/// An array of strings, each quoted.
pub fn string_array_text(strings: &Vec<String>) -> (text: String)
    ensures
        text@ == string_array(views(strings@)),
{
    let mut quoted: Vec<String> = Vec::new();
    let mut i: usize = 0;
    while i < strings.len()
        invariant
            i <= strings.len(),
            quoted@.len() == i,
            forall|k: int| 0 <= k < i ==> (#[trigger] quoted@[k])@ == json_quoted(strings@[k]@),
        decreases strings.len() - i,
    {
        quoted.push(quote(strings[i].as_str()));
        i += 1;
    }
    assert(views(quoted@) =~= views(strings@).map_values(|s: Seq<char>| json_quoted(s)));
    array_text(&quoted)
}

/// A string, or `null`.
pub fn optional_string_text(value: &Option<String>) -> (text: String)
    ensures
        text@ == optional_string(*value),
{
    match value {
        Some(s) => quote(s.as_str()),
        None => String::from_str("null"),
    }
}

/// `true` or `false`.
pub fn boolean_text(value: bool) -> (text: String)
    ensures
        text@ == boolean(value),
{
    if value {
        String::from_str("true")
    } else {
        String::from_str("false")
    }
}

/// An unsigned number.
pub fn unsigned_text(value: u64) -> (text: String)
    ensures
        text@ == numeral(value as nat, 10),
{
    numeral_text(value, 10)
}

/// A signed 32-bit number.
pub fn signed_text(value: i32) -> (text: String)
    ensures
        text@ == integer(value as int),
{
    integer_text(value as i64)
}

} // verus!
