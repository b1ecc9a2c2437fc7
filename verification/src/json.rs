//! What is read out of a JSON object, and how a text is written as JSON.
//!
//! The values are `serde_json`'s. This crate sees three things of one: which of
//! its members are texts, which are whole numbers, and the names of them all.
use vstd::prelude::*;

verus! {

/// A JSON value. Nothing is known of it but what the functions below read.
#[verifier::external_type_specification]
#[verifier::external_body]
pub struct ExValue(serde_json::Value);

/// The members of an object that are texts, by name. Empty for a value that is
/// no object.
pub uninterp spec fn text_members(value: serde_json::Value) -> Map<Seq<char>, Seq<char>>;

/// The members of an object that are whole numbers not below zero, by name.
/// Empty for a value that is no object.
pub uninterp spec fn number_members(value: serde_json::Value) -> Map<Seq<char>, u64>;

/// The names of an object's members, in the order the object is walked. Empty
/// for a value that is no object.
pub uninterp spec fn member_names(value: serde_json::Value) -> Seq<Seq<char>>;

/// What a list of texts holds.
pub open spec fn texts(list: Seq<String>) -> Seq<Seq<char>> {
    list.map_values(|text: String| text@)
}

/// `serde_json::Value::get` by name and `Value::as_str` on what it finds: the
/// text of a member that is one, and nothing for a member that is missing or is
/// something else, or where the value is no object.
#[verifier::external_body]
pub(crate) fn text_member(value: &serde_json::Value, name: &str) -> (r: Option<String>)
    ensures
        match r {
            Some(text) => text_members(*value).contains_pair(name@, text@),
            None => !text_members(*value).contains_key(name@),
        },
{
    value.get(name).and_then(serde_json::Value::as_str).map(str::to_owned)
}

/// `serde_json::Value::get` by name and `Value::as_u64` on what it finds: the
/// number of a member that is a whole one not below zero, and nothing
/// otherwise.
#[verifier::external_body]
pub(crate) fn number_member(value: &serde_json::Value, name: &str) -> (r: Option<u64>)
    ensures
        match r {
            Some(number) => number_members(*value).contains_pair(name@, number),
            None => !number_members(*value).contains_key(name@),
        },
{
    value.get(name).and_then(serde_json::Value::as_u64)
}

/// `serde_json::Value::as_object` and `serde_json::Map::keys`: the names of an
/// object's members in the order it is walked, and none where the value is no
/// object.
#[verifier::external_body]
pub(crate) fn names(value: &serde_json::Value) -> (r: Vec<String>)
    ensures
        texts(r@) == member_names(*value),
{
    match value.as_object() {
        Some(object) => object.keys().cloned().collect(),
        None => Vec::new(),
    }
}

/// Whether JSON writes every character of a text as it is: none is a quote, a
/// backslash or a control character.
pub open spec fn plain(text: Seq<char>) -> bool {
    forall|i: int|
        0 <= i < text.len() ==> (#[trigger] text[i]) >= ' ' && text[i] != '"' && text[i] != '\\'
}

/// `to_string` on a `serde_json::Value::String`: a plain text between quotes,
/// each of its characters as it is.
#[verifier::external_body]
pub(crate) fn quote(text: &str) -> (r: String)
    requires
        plain(text@),
    ensures
        r@ == seq!['"'] + text@ + seq!['"'],
{
    serde_json::Value::String(text.to_owned()).to_string()
}

/// What a list of texts holds is what each of them says, in order.
pub proof fn a_list_holds_its_texts(list: Seq<String>, i: int)
    requires
        0 <= i < list.len(),
    ensures
        texts(list).len() == list.len(),
        texts(list)[i] == list[i]@,
{
}

} // verus!
