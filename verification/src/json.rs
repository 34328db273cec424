use vstd::prelude::*;

verus! {

/// A JSON document as `serde_json` holds it; carried through unchanged.
#[verifier::external_type_specification]
#[verifier::external_body]
pub struct ExJsonValue(serde_json::Value);

/// What `serde_json` makes of `text` when it reads it as a JSON value and
/// writes that value back out: the compact JSON text, or the reader's error
/// message.
pub uninterp spec fn json_reencoded(text: Seq<char>) -> Result<Seq<char>, Seq<char>>;

/// Calls `serde_json::from_str::<Value>` on `text` and `serde_json::to_string`
/// on the value read. Claimed: the result is `json_reencoded(text)`, with the
/// error's `Display` text on failure (writing a `Value` back out does not fail),
/// and the text written is `json_text(json_value(text))`.
#[verifier::external_body]
pub(crate) fn reencode_json(text: &str) -> (r: Result<String, String>)
    ensures
        (match r {
            Ok(s) => json_reencoded(text@) == Ok::<Seq<char>, Seq<char>>(s@),
            Err(e) => json_reencoded(text@) == Err::<Seq<char>, Seq<char>>(e@),
        }),
        (match r {
            Ok(s) => s@ == json_text(json_value(text@)),
            Err(_) => true,
        }),
{
    match serde_json::from_str::<serde_json::Value>(text) {
        Ok(v) => serde_json::to_string(&v).map_err(|e| e.to_string()),
        Err(e) => Err(e.to_string()),
    }
}

/// The value `serde_json::from_str::<Value>` reads from `text`, where it
/// reads one.
pub uninterp spec fn json_value(text: Seq<char>) -> serde_json::Value;

/// The compact JSON text `serde_json::to_string` writes for `value`.
pub uninterp spec fn json_text(value: serde_json::Value) -> Seq<char>;

/// Calls `serde_json::from_str::<Value>` on `text`. Claimed: it reads a value
/// exactly when `json_reencoded(text)` succeeds (writing a `Value` back out
/// does not fail), the value read is `json_value(text)`, and on failure its
/// error's `Display` text is the error of `json_reencoded(text)`.
#[verifier::external_body]
pub(crate) fn parse_json(text: &str) -> (r: Result<serde_json::Value, String>)
    ensures
        (match r {
            Ok(v) => json_reencoded(text@) is Ok && v == json_value(text@),
            Err(e) => json_reencoded(text@) == Err::<Seq<char>, Seq<char>>(e@),
        }),
{
    serde_json::from_str::<serde_json::Value>(text).map_err(|e| e.to_string())
}

/// Calls `serde_json::to_string` on `value`. Claimed: it succeeds (the
/// writer is a `Vec` and a `Value`'s object keys are strings) and writes
/// `json_text(value)`.
#[verifier::external_body]
pub(crate) fn write_json(value: &serde_json::Value) -> (r: Result<String, String>)
    ensures
        r is Ok,
        (match r {
            Ok(s) => s@ == json_text(*value),
            Err(_) => true,
        }),
{
    serde_json::to_string(value).map_err(|e| e.to_string())
}

} // verus!
