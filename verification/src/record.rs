//! Records: one JSON object per input line, decoded by `serde_json` and read
//! through a handful of its accessors.

use vstd::prelude::*;

verus! {

/// `serde_json::Map`, a JSON object. Nothing of its inside is visible here.
#[verifier::external_type_specification]
#[verifier::external_body]
#[verifier::reject_recursive_types(K)]
#[verifier::reject_recursive_types(V)]
pub struct ExJsonMap<K, V>(serde_json::Map<K, V>);

/// `serde_json::Value`, any JSON value. Nothing of its inside is visible here.
#[verifier::external_type_specification]
#[verifier::external_body]
pub struct ExJsonValue(serde_json::Value);

/// `serde_json::Error`, why a text is no JSON of the wanted shape.
#[verifier::external_type_specification]
#[verifier::external_body]
pub struct ExJsonError(serde_json::Error);

/// One log record: a JSON object, kept as it was decoded.
pub type Record = serde_json::Map<String, serde_json::Value>;

/// What `serde_json::from_str` makes of a line when asked for a JSON object.
pub uninterp spec fn decoded(line: Seq<char>) -> Result<Record, serde_json::Error>;

/// The message that a `serde_json::Error` displays.
pub uninterp spec fn failure_message(error: serde_json::Error) -> Seq<char>;

/// The value that a JSON object holds under a key, if any.
pub uninterp spec fn entry_of(record: Record, key: Seq<char>) -> Option<serde_json::Value>;

/// The entries of a JSON object, in the order in which it hands them out.
pub uninterp spec fn entries_of(record: Record) -> Seq<(Seq<char>, serde_json::Value)>;

/// The text of a JSON value that is a string.
pub uninterp spec fn text_of(value: serde_json::Value) -> Option<Seq<char>>;

/// The object of a JSON value that is one.
pub uninterp spec fn object_of(value: serde_json::Value) -> Option<Record>;

/// The compact JSON text that a value displays as.
pub uninterp spec fn rendered(value: serde_json::Value) -> Seq<char>;

/// `serde_json::from_str`, asked for a JSON object: the outcome depends on
/// the text alone, and the empty text is refused.
#[verifier::external_body]
fn decode(line: &str) -> (outcome: Result<Record, serde_json::Error>)
    ensures
        outcome == decoded(line@),
        line@.len() == 0 ==> outcome is Err,
{
    serde_json::from_str::<Record>(line)
}

/// `Display` of `serde_json::Error`, through `to_string`.
#[verifier::external_body]
fn describe(error: &serde_json::Error) -> (message: String)
    ensures
        message@ == failure_message(*error),
{
    error.to_string()
}

/// `serde_json::Map::get`: the value under `key`, if the object has one.
#[verifier::external_body]
pub(crate) fn lookup<'a>(record: &'a Record, key: &str) -> (value: Option<&'a serde_json::Value>)
    ensures
        match value {
            Some(v) => entry_of(*record, key@) == Some(*v),
            None => entry_of(*record, key@) is None,
        },
{
    record.get(key)
}

/// `serde_json::Map::iter`: every entry, key and value, in the object's order.
#[verifier::external_body]
pub(crate) fn entries<'a>(record: &'a Record) -> (pairs: Vec<(&'a String, &'a serde_json::Value)>)
    ensures
        pairs@.len() == entries_of(*record).len(),
        forall|i: int|
            0 <= i < pairs@.len() ==> (#[trigger] pairs@[i]).0@ == entries_of(*record)[i].0
                && *pairs@[i].1 == entries_of(*record)[i].1,
{
    record.iter().collect()
}

/// `serde_json::Value::as_str`: the text, where the value is a string.
pub assume_specification<'a>[ serde_json::Value::as_str ](value: &'a serde_json::Value) -> (text:
    Option<&'a str>)
    ensures
        match text {
            Some(s) => text_of(*value) == Some(s@),
            None => text_of(*value) is None,
        },
;

/// `serde_json::Value::as_object`: the object, where the value is one.
pub assume_specification<'a>[ serde_json::Value::as_object ](
    value: &'a serde_json::Value,
) -> (object: Option<&'a serde_json::Map<String, serde_json::Value>>)
    ensures
        match object {
            Some(o) => object_of(*value) == Some(*o),
            None => object_of(*value) is None,
        },
;

/// `Display` of `serde_json::Value`, through `to_string`: compact JSON.
#[verifier::external_body]
pub(crate) fn render(value: &serde_json::Value) -> (text: String)
    ensures
        text@ == rendered(*value),
{
    value.to_string()
}

/// Why a line did not decode into a record.
#[derive(Debug)]
pub struct ParseFailure {
    pub message: String,
}

/// What decoding a line comes to: the record, or the failure with the
/// decoder's message.
pub open spec fn parse_outcome(line: Seq<char>, outcome: Result<Record, ParseFailure>) -> bool {
    match decoded(line) {
        Ok(record) => outcome == Ok::<Record, ParseFailure>(record),
        Err(error) => outcome matches Err(failure) && failure.message@ == failure_message(error),
    }
}

/// Whether a line decodes into a record.
pub open spec fn decodes(line: Seq<char>) -> bool {
    decoded(line) is Ok
}

/// Turns one line of text into a record. A line that is not exactly one JSON
/// object, the empty line among them, is a failure.
pub fn parse_line(line: &str) -> (outcome: Result<Record, ParseFailure>)
    ensures
        parse_outcome(line@, outcome),
        outcome is Ok <==> decodes(line@),
        line@.len() == 0 ==> outcome is Err,
{
    interpret(decode(line))
}

/// Maps the decoder's outcome to this library's.
pub fn interpret(decoding: Result<Record, serde_json::Error>) -> (outcome: Result<
    Record,
    ParseFailure,
>)
    ensures
        match decoding {
            Ok(record) => outcome == Ok::<Record, ParseFailure>(record),
            Err(error) => outcome matches Err(failure) && failure.message@ == failure_message(
                error,
            ),
        },
{
    match decoding {
        Ok(record) => Ok(record),
        Err(error) => Err(ParseFailure { message: describe(&error) }),
    }
}

} // verus!
