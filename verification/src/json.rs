//! JSON values, as `serde_json` holds them. A value is opaque here: what the
//! crate's functions do with one is stated over the names below, and nothing
//! in this file is proved.

use vstd::prelude::*;

verus! {

/// A JSON value of `serde_json`.
#[verifier::external_type_specification]
#[verifier::external_body]
pub struct ExValue(serde_json::Value);

/// The error of `serde_json`.
#[verifier::external_type_specification]
#[verifier::external_body]
pub struct ExError(serde_json::Error);

/// What `serde_json::from_str` makes of a text: the value that it reads, or
/// the message of the error that it gives.
pub uninterp spec fn parsed(text: Seq<char>) -> Result<serde_json::Value, Seq<char>>;

/// The message of an error, as its `Display` writes it.
pub uninterp spec fn error_message(e: serde_json::Error) -> Seq<char>;

/// The members of a JSON object by key; `None` for a value that is no
/// object.
pub uninterp spec fn object_members(v: serde_json::Value) -> Option<
    Map<Seq<char>, serde_json::Value>,
>;

/// The items of a JSON array in order; `None` for a value that is no array.
pub uninterp spec fn array_items(v: serde_json::Value) -> Option<Seq<serde_json::Value>>;

/// What `serde_json::to_string_pretty` makes of a value: the indented text
/// that it writes, or the message of the error that it gives.
pub uninterp spec fn pretty_text(v: serde_json::Value) -> Result<Seq<char>, Seq<char>>;

/// `serde_json::from_str` at the type `Value`: the value that the text
/// denotes, or the error for a text that is no JSON. The outcome, and the
/// error's message with it, depend on the text alone.
#[verifier::external_body]
pub(crate) fn parse(text: &str) -> (r: Result<serde_json::Value, serde_json::Error>)
    ensures
        match r {
            Ok(v) => parsed(text@) == Ok::<serde_json::Value, Seq<char>>(v),
            Err(e) => parsed(text@) == Err::<serde_json::Value, Seq<char>>(error_message(e)),
        },
{
    serde_json::from_str::<serde_json::Value>(text)
}

/// `Value::is_object`: whether the value is an object.
#[verifier::external_body]
pub(crate) fn is_object(v: &serde_json::Value) -> (r: bool)
    ensures
        r == object_members(*v).is_some(),
{
    v.is_object()
}

/// `Value::is_array`: whether the value is an array.
#[verifier::external_body]
pub(crate) fn is_array(v: &serde_json::Value) -> (r: bool)
    ensures
        r == array_items(*v).is_some(),
{
    v.is_array()
}

/// `Value::get` with a text index: the member under `key` where the value is
/// an object that has one, and `None` for a missing key or another kind of
/// value.
#[verifier::external_body]
pub(crate) fn member<'a>(doc: &'a serde_json::Value, key: &str) -> (r: Option<
    &'a serde_json::Value,
>)
    ensures
        match r {
            Some(m) => object_members(*doc).is_some() && object_members(*doc).unwrap().dom().contains(
                key@,
            ) && *m == object_members(*doc).unwrap()[key@],
            None => object_members(*doc).is_none() || !object_members(*doc).unwrap().dom().contains(
                key@,
            ),
        },
{
    doc.get(key)
}

/// Assignment through `Value`'s `IndexMut` with a text index: on an object
/// the member under `key` becomes `data`, and the other members stay. The
/// index panics on a value that is neither an object nor null; objects alone
/// are admitted here.
#[verifier::external_body]
pub(crate) fn set_member(doc: &mut serde_json::Value, key: &str, data: serde_json::Value)
    requires
        object_members(*old(doc)).is_some(),
    ensures
        object_members(*final(doc)) == Some(object_members(*old(doc)).unwrap().insert(key@, data)),
{
    doc[key] = data;
}

/// `Value::clone`: an equal value.
#[verifier::external_body]
pub(crate) fn copy_of(v: &serde_json::Value) -> (r: serde_json::Value)
    ensures
        r == *v,
{
    v.clone()
}

/// `Value::Object` of `Map::new()`: the object without members.
#[verifier::external_body]
pub(crate) fn empty_object() -> (r: serde_json::Value)
    ensures
        object_members(r) == Some(Map::<Seq<char>, serde_json::Value>::empty()),
{
    serde_json::Value::Object(serde_json::Map::new())
}

/// `Value::Array` of an empty vector: the array without items.
#[verifier::external_body]
pub(crate) fn empty_array() -> (r: serde_json::Value)
    ensures
        array_items(r) == Some(Seq::<serde_json::Value>::empty()),
{
    serde_json::Value::Array(Vec::new())
}

/// `serde_json::to_string_pretty`: the indented text of the value, or the
/// serializer's error. Which of the two comes, the text and the error's
/// message depend on the value alone; nothing is said of whether a given
/// value can be written.
#[verifier::external_body]
pub(crate) fn to_pretty(v: &serde_json::Value) -> (r: Result<String, serde_json::Error>)
    ensures
        match r {
            Ok(text) => pretty_text(*v) == Ok::<Seq<char>, Seq<char>>(text@),
            Err(e) => pretty_text(*v) == Err::<Seq<char>, Seq<char>>(error_message(e)),
        },
{
    serde_json::to_string_pretty(v)
}

/// `to_string` on the error: the message that its `Display` writes.
#[verifier::external_body]
pub(crate) fn error_text(e: &serde_json::Error) -> (r: String)
    ensures
        r@ == error_message(*e),
{
    e.to_string()
}

} // verus!
