//! JSON string literals, as `serde_json` writes them: the escaping used to
//! put caller data into injected JavaScript.

use vstd::prelude::*;

verus! {

/// `serde_json::Error`, which a serialization can return.
#[verifier::external_type_specification]
#[verifier::external_body]
pub struct ExJsonError(serde_json::Error);

/// The JSON string literal `serde_json` writes for `s`: quoted, with `"`,
/// `\\` and control characters escaped. JSON string syntax is a subset of
/// JavaScript's.
pub uninterp spec fn json_str(s: Seq<char>) -> Seq<char>;

/// The JSON array literal `serde_json` writes for a list of strings, in
/// order.
pub uninterp spec fn json_str_array(ss: Seq<Seq<char>>) -> Seq<char>;

/// `serde_json::to_string` of a `str`. Serializing a string writes into a
/// `Vec`, which cannot fail, so the call always returns `Ok`; its text is
/// named [`json_str`].
#[verifier::external_body]
fn str_to_json(value: &str) -> (r: Result<String, serde_json::Error>)
    ensures
        r is Ok,
        r->Ok_0@ == json_str(value@),
{
    serde_json::to_string(value)
}

/// `serde_json::to_string` of a slice of strings. As for one string, the
/// call cannot fail; its text is named [`json_str_array`].
#[verifier::external_body]
fn strs_to_json(values: &[String]) -> (r: Result<String, serde_json::Error>)
    ensures
        r is Ok,
        r->Ok_0@ == json_str_array(values@.map_values(|v: String| v@)),
{
    serde_json::to_string(values)
}

/// `value` as an escaped JavaScript string literal. Mandatory rather than
/// cosmetic: the default token selectors contain double quotes.
pub fn js_string(value: &str) -> (r: String)
    ensures
        r@ == json_str(value@),
{
    match str_to_json(value) {
        Ok(s) => s,
        Err(_) => String::from_str("\"\""),
    }
}

/// `values` as an escaped JavaScript array-of-strings literal.
pub fn js_string_array(values: &[String]) -> (r: String)
    ensures
        r@ == json_str_array(values@.map_values(|v: String| v@)),
{
    match strs_to_json(values) {
        Ok(s) => s,
        Err(_) => String::from_str("[]"),
    }
}

} // verus!
