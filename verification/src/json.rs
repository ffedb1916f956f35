use vstd::prelude::*;

verus! {

/// The string value of field `key` of JSON document `body`: present exactly
/// when `body` parses as JSON, carries the field, and the field is a
/// string.  A function of the two arguments alone.
pub uninterp spec fn json_str_field_of(body: Seq<char>, key: Seq<char>) -> Option<Seq<char>>;

/// The numeric value of field `key` of JSON document `body`: present
/// exactly when `body` parses as JSON, carries the field, and the field is
/// an integer representable as u64.  A function of the two arguments alone.
pub uninterp spec fn json_u64_field_of(body: Seq<char>, key: Seq<char>) -> Option<u64>;

/// Relies on serde_json::from_str, Value::get and Value::as_str: parses
/// `body` and reads the string field `key`; nothing on malformed JSON, a
/// missing field, or a field of another kind.  Deterministic in the two
/// arguments.
#[verifier::external_body]
pub(crate) fn json_str_field(body: &str, key: &str) -> (r: Option<String>)
    ensures
        match r {
            Option::Some(v) => json_str_field_of(body@, key@) == Option::Some(v@),
            Option::None => json_str_field_of(body@, key@) is None,
        },
{
    serde_json::from_str::<serde_json::Value>(body).ok().and_then(
        |doc| doc.get(key).and_then(|f| f.as_str()).map(|s| s.to_owned()),
    )
}

/// Relies on serde_json::from_str, Value::get and Value::as_u64: parses
/// `body` and reads the numeric field `key`; nothing on malformed JSON, a
/// missing field, or a field that is no u64.  Deterministic in the two
/// arguments.
#[verifier::external_body]
pub(crate) fn json_u64_field(body: &str, key: &str) -> (r: Option<u64>)
    ensures
        match r {
            Option::Some(n) => json_u64_field_of(body@, key@) == Option::Some(n),
            Option::None => json_u64_field_of(body@, key@) is None,
        },
{
    serde_json::from_str::<serde_json::Value>(body).ok().and_then(
        |doc| doc.get(key).and_then(|f| f.as_u64()),
    )
}

} // verus!
