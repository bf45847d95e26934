use vstd::prelude::*;

verus! {

/// `serde_json::Value`, the document type; the store never looks inside one.
#[verifier::external_type_specification]
#[verifier::external_body]
pub struct ExValue(serde_json::Value);

/// `serde_json::Error`, the error of encoding or decoding a document.
#[verifier::external_type_specification]
#[verifier::external_body]
pub struct ExJsonError(serde_json::Error);

/// The JSON text that `serde_json::to_string` makes of a document, or `None`
/// where it reports an error.
pub uninterp spec fn json_text(v: serde_json::Value) -> Option<Seq<char>>;

/// The document that `serde_json::from_str` reads from a text, or `None` where
/// the text is not a JSON document.
pub uninterp spec fn parse_json(s: Seq<char>) -> Option<serde_json::Value>;

/// Relies on serde_json::to_string: the text it returns, or whether it fails,
/// depends on the document alone.
#[verifier::external_body]
pub(crate) fn encode(v: &serde_json::Value) -> (r: Result<String, serde_json::Error>)
    ensures
        r is Ok <==> json_text(*v) is Some,
        r is Ok ==> Some(r->Ok_0@) == json_text(*v),
{
    serde_json::to_string(v)
}

/// Relies on serde_json::from_str: the document it reads, or whether it fails,
/// depends on the text alone.
#[verifier::external_body]
pub(crate) fn decode(s: &str) -> (r: Result<serde_json::Value, serde_json::Error>)
    ensures
        r is Ok <==> parse_json(s@) is Some,
        r is Ok ==> Some(r->Ok_0) == parse_json(s@),
{
    serde_json::from_str(s)
}

/// Relies on serde_json's `Value::Null` and its serialisation, which writes
/// the four characters `null` for it.
#[verifier::external_body]
pub(crate) fn null_document() -> (r: serde_json::Value)
    ensures
        json_text(r) == Some("null"@),
{
    serde_json::Value::Null
}

} // verus!
