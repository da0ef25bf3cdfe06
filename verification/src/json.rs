//! The JSON documents that carry inventories and quest logs, as `serde_json`
//! reads them, and the mathematical tree that the contracts speak of.

use vstd::prelude::*;

verus! {

/// A JSON value of `serde_json`. Verus sees nothing inside it: what it holds
/// is given by [`json_tree`].
#[verifier::external_type_specification]
#[verifier::external_body]
pub struct ExValue(serde_json::Value);

/// The error with which `serde_json` refuses a text.
#[verifier::external_type_specification]
#[verifier::external_body]
pub struct ExJsonError(serde_json::Error);

/// A JSON number as a mathematical value.
pub enum JsonNumber {
    /// A non-negative integer that fits 64 bits.
    Unsigned(u64),
    /// A negative integer.
    Negative(i64),
    /// Any other number, by the bit pattern of its double-precision form.
    Real(u64),
}

/// A JSON document as a mathematical tree.
pub enum Json {
    Null,
    Bool(bool),
    Number(JsonNumber),
    Text(Seq<char>),
    Array(Seq<Json>),
    Object(Map<Seq<char>, Json>),
}

/// The tree that a `serde_json::Value` holds.
pub uninterp spec fn json_tree(value: serde_json::Value) -> Json;

/// The tree that `serde_json::from_str` reads from a text, or `None` where it
/// refuses the text.
pub uninterp spec fn json_parse(text: Seq<char>) -> Option<Json>;

/// The trees of a sequence of values, one for one.
pub open spec fn json_trees(values: Seq<serde_json::Value>) -> Seq<Json> {
    Seq::new(values.len(), |i: int| json_tree(values[i]))
}

/// `Clone::clone` of `serde_json::Value`: the copy holds the same tree.
pub assume_specification[ <serde_json::Value as Clone>::clone ](
    value: &serde_json::Value,
) -> (res: serde_json::Value)
    ensures
        json_tree(res) == json_tree(*value),
;

/// `serde_json::from_str` at the type `serde_json::Value`: a text is either
/// read into a value whose tree is `json_parse` of the text, or refused, and
/// then `json_parse` of the text is `None`.
#[verifier::external_body]
pub(crate) fn parse_value(text: &str) -> (res: Result<serde_json::Value, serde_json::Error>)
    ensures
        match res {
            Ok(value) => json_parse(text@) == Some(json_tree(value)),
            Err(_) => json_parse(text@).is_none(),
        },
{
    serde_json::from_str::<serde_json::Value>(text)
}

/// `serde_json::Value::as_array`: the elements where the value is an array,
/// `None` for every other value.
#[verifier::external_body]
pub(crate) fn value_elements(value: &serde_json::Value) -> (res: Option<&Vec<serde_json::Value>>)
    ensures
        match res {
            Some(elements) => json_tree(*value) == Json::Array(json_trees(elements@)),
            None => !(json_tree(*value) is Array),
        },
{
    value.as_array()
}

/// `serde_json::Value::get` with a string index: the member under `key` where
/// the value is an object that has one, `None` otherwise.
#[verifier::external_body]
pub(crate) fn value_member<'a>(value: &'a serde_json::Value, key: &str) -> (res: Option<&'a serde_json::Value>)
    ensures
        match res {
            Some(member) => json_tree(*value) is Object
                && json_tree(*value)->Object_0.contains_key(key@)
                && json_tree(*value)->Object_0[key@] == json_tree(*member),
            None => !(json_tree(*value) is Object
                && json_tree(*value)->Object_0.contains_key(key@)),
        },
{
    value.get(key)
}

/// `serde_json::Value::as_str`: the text where the value is a string, `None`
/// for every other value.
#[verifier::external_body]
pub(crate) fn value_text(value: &serde_json::Value) -> (res: Option<&str>)
    ensures
        match res {
            Some(text) => json_tree(*value) == Json::Text(text@),
            None => !(json_tree(*value) is Text),
        },
{
    value.as_str()
}

/// `serde_json::Value::as_u64`: the number where the value is a non-negative
/// integer that fits 64 bits, `None` for every other value.
#[verifier::external_body]
pub(crate) fn value_unsigned(value: &serde_json::Value) -> (res: Option<u64>)
    ensures
        match res {
            Some(n) => json_tree(*value) == Json::Number(JsonNumber::Unsigned(n)),
            None => !(json_tree(*value) matches Json::Number(JsonNumber::Unsigned(_))),
        },
{
    value.as_u64()
}

/// `serde_json::Value::as_bool`: the truth value where the value is a
/// boolean, `None` for every other value.
#[verifier::external_body]
pub(crate) fn value_bool(value: &serde_json::Value) -> (res: Option<bool>)
    ensures
        match res {
            Some(b) => json_tree(*value) == Json::Bool(b),
            None => !(json_tree(*value) is Bool),
        },
{
    value.as_bool()
}

} // verus!
