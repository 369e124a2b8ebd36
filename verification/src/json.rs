//! The gateway's use of JSON values: tool arguments are parsed leniently
//! (a payload that is not valid JSON is treated as empty rather than
//! failing the call), and tool results are normalized to pretty-printed
//! JSON before they are folded into conversation state.

use vstd::prelude::*;

verus! {

#[verifier::external_type_specification]
#[verifier::external_body]
pub struct ExValue(serde_json::Value);

/// Whether `serde_json` accepts this text as a JSON document; a function
/// of the text alone.
pub uninterp spec fn json_accepts(s: Seq<char>) -> bool;

/// The text's lenient pretty-printing: parsed as JSON — defaulting to
/// the null document when it does not parse — and printed back pretty.
/// A function of the text alone, since `serde_json` parsing and
/// printing are deterministic.
pub uninterp spec fn pretty_of(s: Seq<char>) -> Seq<char>;

/// Relies on `serde_json::from_str::<Value>`: it returns `Ok` exactly on
/// the texts that parse as JSON, and depends on the text alone.
#[verifier::external_body]
fn parse_json_text(s: &str) -> (r: Option<serde_json::Value>)
    ensures
        r is Some <==> json_accepts(s@),
{
    serde_json::from_str::<serde_json::Value>(s).ok()
}

/// Relies on `serde_json::Value::Null`, the default value: the stand-in
/// for an argument payload that did not parse.
#[verifier::external_body]
fn null_json() -> serde_json::Value {
    serde_json::Value::Null
}

/// Relies on `serde_json::from_str::<Value>` and
/// `serde_json::to_string_pretty`: both depend on the text alone, so the
/// composition is the function the name `pretty_of` denotes. The
/// `unwrap` cannot fire: serialization of a `Value` fails only on a
/// failing `Serialize` or a non-string map key, and a `Value`'s maps
/// have `String` keys.
#[verifier::external_body]
pub(crate) fn pretty_normalize(text: &str) -> (r: String)
    ensures
        r@ == pretty_of(text@),
{
    serde_json::to_string_pretty(&serde_json::from_str::<serde_json::Value>(text).unwrap_or_default())
        .unwrap()
}

/// Parses a raw tool-argument payload. A payload that is not valid JSON
/// becomes the empty (null) value instead of a failure — the flag says
/// whether the payload itself parsed.
pub fn parse_arguments(args: &str) -> (r: (serde_json::Value, bool))
    ensures
        r.1 == json_accepts(args@),
{
    match parse_json_text(args) {
        Some(v) => (v, true),
        None => (null_json(), false),
    }
}

} // verus!
