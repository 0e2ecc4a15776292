//! What the converters need from `serde_json`: whether a text is JSON, and
//! how a string is written as a JSON string literal.
use vstd::prelude::*;

verus! {

/// Whether `serde_json` accepts the text as one JSON value.
pub uninterp spec fn is_json_text(s: Seq<char>) -> bool;

/// The JSON string literal that `serde_json` writes for a string.
pub uninterp spec fn json_string_literal(s: Seq<char>) -> Seq<char>;

/// Relies on `serde_json::from_str::<serde_json::Value>`: whether the text
/// parses as a JSON value.
#[verifier::external_body]
pub(crate) fn parses_as_json(s: &str) -> (r: bool)
    ensures
        r == is_json_text(s@),
{
    serde_json::from_str::<serde_json::Value>(s).is_ok()
}

/// Relies on `serde_json::to_string` on a `str`: the quoted and escaped
/// JSON string literal.
#[verifier::external_body]
pub(crate) fn encode_json_string(s: &str) -> (r: String)
    ensures
        r@ == json_string_literal(s@),
{
    serde_json::to_string(s).unwrap_or_default()
}

/// `{}`.
pub open spec fn empty_object_text() -> Seq<char> {
    seq!['{', '}']
}

/// The JSON arguments of a tool call as the native protocols take them:
/// the text when it is JSON, else an empty object.
pub open spec fn arguments_or_empty(args: Seq<char>) -> Seq<char> {
    if is_json_text(args) {
        args
    } else {
        empty_object_text()
    }
}

pub fn json_or_empty_object(args: &String) -> (r: String)
    ensures
        r@ == arguments_or_empty(args@),
{
    if parses_as_json(args.as_str()) {
        args.clone()
    } else {
        let r = "{}".to_string();
        proof {
            reveal_strlit("{}");
        }
        r
    }
}

/// `{"result":` followed by `quoted` and `}`.
pub open spec fn result_object_text(quoted: Seq<char>) -> Seq<char> {
    seq!['{', '"', 'r', 'e', 's', 'u', 'l', 't', '"', ':'] + quoted + seq!['}']
}

/// A tool's result as the contents/parts protocol takes it: the text when
/// it is JSON, else an object that holds the text under `result`.
pub open spec fn tool_response_json(text: Seq<char>) -> Seq<char> {
    if is_json_text(text) {
        text
    } else {
        result_object_text(json_string_literal(text))
    }
}

pub fn json_or_result_object(text: &String) -> (r: String)
    ensures
        r@ == tool_response_json(text@),
{
    if parses_as_json(text.as_str()) {
        text.clone()
    } else {
        let quoted = encode_json_string(text.as_str());
        let mut r = "{\"result\":".to_string();
        r.push_str(quoted.as_str());
        r.push_str("}");
        proof {
            reveal_strlit("{\"result\":");
            reveal_strlit("}");
            assert(r@ =~= result_object_text(quoted@));
        }
        r
    }
}

} // verus!
