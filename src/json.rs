//! Reading string members out of JSON response bodies.
use vstd::prelude::*;
use crate::error::{ApiError, opt_view};

verus! {

/// The string held by member `key` of the JSON object that `body` encodes:
/// `None` where `body` is not a JSON object, lacks the member, or the member
/// is not a string.
pub uninterp spec fn json_string_member(body: Seq<u8>, key: Seq<char>) -> Option<Seq<char>>;

/// Relies on `serde_json::from_slice` into a `serde_json::Value`, then
/// `Value::get` and `Value::as_str`: the string member `key` of the decoded
/// object, which depends on `body` and `key` alone.
#[verifier::external_body]
pub(crate) fn string_member(body: &[u8], key: &str) -> (r: Option<String>)
    ensures
        opt_view(r) == json_string_member(body@, key@),
{
    let value: serde_json::Value = serde_json::from_slice(body).ok()?;
    value.get(key)?.as_str().map(String::from)
}

/// Whether `body` encodes a JSON object whose member `key` decodes as an
/// optional string: absent, `null`, or a string.
pub uninterp spec fn json_optional_text_member(body: Seq<u8>, key: Seq<char>) -> bool;

/// Relies on `serde_json::from_slice` into a `serde_json::Value`,
/// `Value::get`, and `serde_json::from_value` into `Option<String>`: whether
/// the member `key` decodes as an optional string, which depends on `body`
/// and `key` alone.
#[verifier::external_body]
pub(crate) fn optional_text_member(body: &[u8], key: &str) -> (r: bool)
    ensures
        r == json_optional_text_member(body@, key@),
{
    match serde_json::from_slice::<serde_json::Value>(body) {
        Ok(v) => {
            let member = v.get(key).cloned().unwrap_or(serde_json::Value::Null);
            serde_json::from_value::<Option<String>>(member).is_ok()
        },
        Err(_) => false,
    }
}

/// The fields of the API error payload that `body` holds, if it holds one: a
/// string `error`, and an `error_description` that is a string, `null` or
/// absent.
pub open spec fn api_error_fields(body: Seq<u8>) -> Option<(Seq<char>, Option<Seq<char>>)> {
    match json_string_member(body, "error"@) {
        Some(e) => if json_optional_text_member(body, "error_description"@) {
            Some((e, json_string_member(body, "error_description"@)))
        } else {
            None
        },
        None => None,
    }
}

/// Decodes `body` as the API error payload.
pub fn decode_api_error(body: &[u8]) -> (r: Option<ApiError>)
    ensures
        match r {
            Some(a) => api_error_fields(body@) == Some((a.error@, opt_view(a.error_description))),
            None => api_error_fields(body@) is None,
        },
{
    match string_member(body, "error") {
        Some(error) => {
            if !optional_text_member(body, "error_description") {
                return None;
            }
            let error_description = string_member(body, "error_description");
            Some(ApiError { error, error_description })
        },
        None => None,
    }
}

} // verus!
