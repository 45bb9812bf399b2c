//! Everything this crate asks of `serde_json`: reading one JSON object and
//! writing one JSON string. Nothing here is proved; the contracts only give
//! names to what `serde_json` returns, so that the codec can be exact about
//! the rest.
use vstd::prelude::*;

verus! {

/// The members of the JSON object that `serde_json` reads from `data`, or
/// `None` where it rejects `data`.
///
/// A member is its name together with its text where its value is a JSON
/// string, and with `None` where its value is anything else.
pub uninterp spec fn parsed_object(data: Seq<u8>) -> Option<Seq<(Seq<char>, Option<Seq<char>>)>>;

/// The JSON string, quotes and escapes included, that `serde_json` writes for
/// `text`.
pub uninterp spec fn string_literal(text: Seq<char>) -> Seq<char>;

/// Calls `serde_json::from_slice` for a `serde_json::Map<String, Value>`.
///
/// Believed, not proved: the outcome depends on `data` alone. Where
/// `serde_json` accepts `data` as one JSON object, the result lists the
/// members of its map in the order the map hands them out, each string value
/// moved out as text and every other value replaced by `None`. Of a name that
/// `data` spells more than once the map keeps one member.
#[verifier::external_body]
pub(crate) fn parse_object(data: &[u8]) -> (parsed: Result<
    Vec<(String, Option<String>)>,
    serde_json::Error,
>)
    ensures
        match parsed {
            Ok(members) => parsed_object(data@) == Some(members.deep_view()),
            Err(_) => parsed_object(data@) is None,
        },
{
    let object: serde_json::Map<String, serde_json::Value> = serde_json::from_slice(data)?;
    Ok(
        object.into_iter().map(
            |(name, value)|
                match value {
                    serde_json::Value::String(text) => (name, Some(text)),
                    _ => (name, None),
                },
        ).collect(),
    )
}

/// Calls `to_string` on a `serde_json::Value::String`, which writes the value
/// as compact JSON.
///
/// Believed, not proved: the outcome depends on `text` alone.
#[verifier::external_body]
pub(crate) fn quote(text: &str) -> (literal: String)
    ensures
        literal@ == string_literal(text@),
{
    serde_json::Value::String(text.to_owned()).to_string()
}

/// Calls `serde::de::Error::custom` on `serde_json::Error`: an error that
/// carries `message`. Nothing is claimed of it.
#[verifier::external_body]
pub(crate) fn shape_error(message: &str) -> serde_json::Error {
    <serde_json::Error as serde::de::Error>::custom(message)
}

} // verus!
