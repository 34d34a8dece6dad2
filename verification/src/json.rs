//! Reading JSON through `serde_json`.
//!
//! A parsed document is held as an opaque `serde_json::Value`. What the rest
//! of the crate needs from one is its string-valued and integer-valued
//! members; each has a name below, and the accessors say what they return in
//! terms of those names. Nothing here is proved: these are the statements
//! about `serde_json` on which the proofs elsewhere rest.

use serde_json::Value;
use vstd::prelude::*;

verus! {

/// `serde_json::Value`, declared so that a parsed document can be carried
/// from one call to the next. Nothing inside it is visible to the verifier.
#[verifier::external_type_specification]
#[verifier::external_body]
pub struct ExValue(Value);

/// The members of a JSON object whose values are JSON strings, by member
/// name. Empty when the value is not an object.
pub uninterp spec fn json_strings(value: Value) -> Map<Seq<char>, Seq<char>>;

/// The members of a JSON object whose values are integers that fit in an
/// `i64`, by member name. Empty when the value is not an object.
pub uninterp spec fn json_integers(value: Value) -> Map<Seq<char>, i64>;

/// What `serde_json::from_str` makes of a text: the document, or nothing when
/// the text is not well-formed JSON.
pub uninterp spec fn parsed_json(text: Seq<char>) -> Option<Value>;

/// `serde_json::from_str::<Value>`, with the parse error dropped. The result
/// depends on the text alone.
#[verifier::external_body]
pub(crate) fn parse_json(text: &str) -> (document: Option<Value>)
    ensures
        document == parsed_json(text@),
{
    serde_json::from_str::<Value>(text).ok()
}

/// `Value::get` with a member name, then `Value::as_str`: the member's text
/// when the value is an object that has the member and the member is a JSON
/// string, and nothing otherwise.
#[verifier::external_body]
pub(crate) fn string_member(value: &Value, name: &str) -> (member: Option<String>)
    ensures
        member matches Some(text) ==> json_strings(*value).contains_key(name@) && json_strings(
            *value,
        )[name@] == text@,
        member is None ==> !json_strings(*value).contains_key(name@),
{
    value.get(name).and_then(Value::as_str).map(str::to_owned)
}

/// `Value::get` with a member name, then `Value::as_i64`: the member's number
/// when the value is an object that has the member and the member is an
/// integer in the range of `i64`, and nothing otherwise.
#[verifier::external_body]
pub(crate) fn integer_member(value: &Value, name: &str) -> (member: Option<i64>)
    ensures
        member matches Some(number) ==> json_integers(*value).contains_key(name@) && json_integers(
            *value,
        )[name@] == number,
        member is None ==> !json_integers(*value).contains_key(name@),
{
    value.get(name).and_then(Value::as_i64)
}

/// The members of a JSON object, each as its own compact JSON text, by
/// member name. Empty when the value is not an object.
pub uninterp spec fn json_members(value: Value) -> Map<Seq<char>, Seq<char>>;

/// `Value::get` with a member name, then the member printed by its
/// `Display`, which writes compact JSON: the member's text when the value
/// is an object that has the member, and nothing otherwise.
#[verifier::external_body]
pub(crate) fn member_text(value: &Value, name: &str) -> (member: Option<String>)
    ensures
        member matches Some(text) ==> json_members(*value).contains_key(name@) && json_members(
            *value,
        )[name@] == text@,
        member is None ==> !json_members(*value).contains_key(name@),
{
    value.get(name).map(|member| member.to_string())
}

/// What `serde_json` writes for an object of two texts, each under its
/// name.
pub uninterp spec fn object_json(
    first: (Seq<char>, Seq<char>),
    second: (Seq<char>, Seq<char>),
) -> Seq<char>;

/// That a text parses as a JSON document that holds two texts under the
/// given names.
pub open spec fn holds_texts(
    text: Seq<char>,
    first: (Seq<char>, Seq<char>),
    second: (Seq<char>, Seq<char>),
) -> bool {
    &&& parsed_json(text) is Some
    &&& {
        let document = parsed_json(text)->Some_0;
        &&& json_strings(document).contains_key(first.0)
        &&& json_strings(document)[first.0] == first.1
        &&& json_strings(document).contains_key(second.0)
        &&& json_strings(document)[second.0] == second.1
    }
}

/// A `serde_json::Map` of two texts, each under the name that comes with
/// it, written out by the `Display` of `Value` as compact JSON. The result
/// depends on the arguments alone. The second clause is the one fact about
/// writing and parsing that this crate relies on: what `serde_json` wrote,
/// it parses, and where the two names differ, the members read back as they
/// went in.
#[verifier::external_body]
pub(crate) fn object_text(first: (&str, &str), second: (&str, &str)) -> (text: String)
    ensures
        text@ == object_json((first.0@, first.1@), (second.0@, second.1@)),
        first.0@ != second.0@ ==> holds_texts(
            text@,
            (first.0@, first.1@),
            (second.0@, second.1@),
        ),
{
    let mut object = serde_json::Map::new();
    object.insert(first.0.to_owned(), Value::from(first.1));
    object.insert(second.0.to_owned(), Value::from(second.1));
    Value::Object(object).to_string()
}

} // verus!
