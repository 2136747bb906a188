//! JSON documents, as `serde_json` reads them.
//!
//! A document is read by the outside parser and handed over as a value of
//! this module's own type, so that the logic that inspects it is plain
//! verified code.

use vstd::prelude::*;

verus! {

/// A JSON number, as far as this crate looks at one.
#[derive(Debug, Clone, Copy, PartialEq, Eq, Structural)]
pub enum JsonNumber {
    /// An integer that is not negative and fits in 64 bits.
    Unsigned(u64),
    /// A negative integer that fits in 64 bits.
    Negative(i64),
    /// Any other number.
    Fraction,
}

/// A JSON value.
#[derive(Debug)]
pub enum JsonValue {
    Null,
    Bool(bool),
    Number(JsonNumber),
    Text(String),
    Array(Vec<JsonValue>),
    /// The members of an object, in the order in which the parser hands
    /// them over.
    Object(Vec<(String, JsonValue)>),
}

/// `serde_json::Value`, which is handed from the parser to the conversion
/// as it is.
#[verifier::external_type_specification]
#[verifier::external_body]
pub struct ExValue(serde_json::Value);

/// What `serde_json::from_str` makes of a text that is read as a
/// `serde_json::Value`: the document, or the text of the parser's error.
pub uninterp spec fn json_document(text: Seq<char>) -> Result<JsonValue, Seq<char>>;

/// Moves a `serde_json::Value` into a `JsonValue`, variant by variant. A
/// number becomes `Unsigned` where `Number::as_u64` gives one, `Negative`
/// where `Number::as_i64` gives one, and `Fraction` otherwise.
#[verifier::external_body]
fn from_outside(value: serde_json::Value) -> JsonValue {
    match value {
        serde_json::Value::Null => JsonValue::Null,
        serde_json::Value::Bool(b) => JsonValue::Bool(b),
        serde_json::Value::Number(n) => JsonValue::Number(
            n.as_u64().map(JsonNumber::Unsigned).or(n.as_i64().map(JsonNumber::Negative)).unwrap_or(
                JsonNumber::Fraction,
            ),
        ),
        serde_json::Value::String(s) => JsonValue::Text(s),
        serde_json::Value::Array(a) => JsonValue::Array(a.into_iter().map(from_outside).collect()),
        serde_json::Value::Object(o) => JsonValue::Object(
            o.into_iter().map(|(k, v)| (k, from_outside(v))).collect(),
        ),
    }
}

/// Calls `serde_json::from_str` for a `serde_json::Value` and hands the
/// document over, or the text of the error.
#[verifier::external_body]
pub(crate) fn parse_json(text: &str) -> (r: Result<JsonValue, String>)
    ensures
        match r {
            Ok(document) => json_document(text@) == Ok::<JsonValue, Seq<char>>(document),
            Err(reason) => json_document(text@) == Err::<JsonValue, Seq<char>>(reason@),
        },
{
    match serde_json::from_str::<serde_json::Value>(text) {
        Ok(value) => Ok(from_outside(value)),
        Err(e) => Err(e.to_string()),
    }
}

/// The value of the first member of `members` whose key is `key`.
pub open spec fn member(members: Seq<(String, JsonValue)>, key: Seq<char>) -> Option<JsonValue>
    decreases members.len(),
{
    if members.len() == 0 {
        None
    } else if members[0].0@ == key {
        Some(members[0].1)
    } else {
        member(members.drop_first(), key)
    }
}

/// Looks a key up among the members of an object.
pub fn find_member<'a>(members: &'a Vec<(String, JsonValue)>, key: &str) -> (r: Option<
    &'a JsonValue,
>)
    ensures
        match r {
            Some(v) => member(members@, key@) == Some(*v),
            None => member(members@, key@) is None,
        },
{
    let mut i: usize = 0;
    assert(members@.skip(0) =~= members@);
    while i < members.len()
        invariant
            i <= members.len(),
            member(members@, key@) == member(members@.skip(i as int), key@),
        decreases members.len() - i,
    {
        assert(members@.skip(i as int).drop_first() =~= members@.skip(i + 1));
        let entry = &members[i];
        if crate::text::same_text(entry.0.as_str(), key) {
            return Some(&entry.1);
        }
        i += 1;
    }
    None
}

} // verus!
