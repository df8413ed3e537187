//! Decoding remote responses. Every non-success response goes through one
//! normalizer: the structured `{"error": ...}` message when the body parses
//! as that, the raw body text otherwise, behind a caller-supplied prefix.
//! Success bodies are decoded per endpoint. The JSON reading itself is
//! serde_json's; its results are named here and the decoding logic is
//! verified against those names.

use vstd::prelude::*;

use crate::errors::Error;

verus! {

/// True exactly when an HTTP status code indicates success.
pub open spec fn spec_is_success(status: u16) -> bool {
    200 <= status < 300
}

/// Executable check that a status code lies in the success range.
pub fn is_success(status: u16) -> (r: bool)
    ensures
        r == spec_is_success(status),
{
    200 <= status && status < 300
}

/// The `Authorization` header value that attaches `token` as a bearer
/// token to a request.
pub fn bearer_header(token: &str) -> (r: String)
    ensures
        r@ == "Bearer "@ + token@,
{
    let mut r = String::from_str("Bearer ");
    r.append(token);
    r
}

/// What serde_json finds at key `"error"` when `s` parses as a JSON object
/// with a string there; `None` otherwise.
pub uninterp spec fn error_field_of(s: Seq<char>) -> Option<Seq<char>>;

/// What serde_json finds at key `"ok"` when `s` parses as a JSON object
/// with a string there; `None` otherwise.
pub uninterp spec fn ok_field_of(s: Seq<char>) -> Option<Seq<char>>;

/// The `"access_token"` string and `"expires_in"` integer when `s` parses
/// as a JSON object carrying both; `None` otherwise.
pub uninterp spec fn login_fields_of(s: Seq<char>) -> Option<(Seq<char>, u64)>;

/// serde_json's pretty-printed form of `s` when `s` parses as JSON; `None`
/// otherwise.
pub uninterp spec fn pretty_json_of(s: Seq<char>) -> Option<Seq<char>>;

/// Relies on serde_json::from_str::<serde_json::Value>: parses `body` and
/// yields the string at key `"error"` of the resulting object, if the body
/// is an object with a string there.
#[verifier::external_body]
fn extract_error_field(body: &str) -> (r: Option<String>)
    ensures
        match r {
            Some(e) => error_field_of(body@) == Some(e@),
            None => error_field_of(body@) is None,
        },
{
    match serde_json::from_str::<serde_json::Value>(body) {
        Ok(serde_json::Value::Object(map)) => match map.get("error") {
            Some(serde_json::Value::String(e)) => Some(e.clone()),
            _ => None,
        },
        _ => None,
    }
}

/// Relies on serde_json::from_str::<serde_json::Value>: parses `body` and
/// yields the string at key `"ok"` of the resulting object, if the body is
/// an object with a string there.
#[verifier::external_body]
fn extract_ok_field(body: &str) -> (r: Option<String>)
    ensures
        match r {
            Some(id) => ok_field_of(body@) == Some(id@),
            None => ok_field_of(body@) is None,
        },
{
    match serde_json::from_str::<serde_json::Value>(body) {
        Ok(serde_json::Value::Object(map)) => match map.get("ok") {
            Some(serde_json::Value::String(id)) => Some(id.clone()),
            _ => None,
        },
        _ => None,
    }
}

/// Relies on serde_json::from_str::<serde_json::Value>: parses `body` and
/// yields the `"access_token"` string and the `"expires_in"` integer of the
/// resulting object, if the body is an object carrying both.
#[verifier::external_body]
fn extract_login_fields(body: &str) -> (r: Option<(String, u64)>)
    ensures
        match r {
            Some(p) => login_fields_of(body@) == Some((p.0@, p.1)),
            None => login_fields_of(body@) is None,
        },
{
    match serde_json::from_str::<serde_json::Value>(body) {
        Ok(serde_json::Value::Object(map)) => match (map.get("access_token"), map.get(
            "expires_in",
        )) {
            (Some(serde_json::Value::String(t)), Some(serde_json::Value::Number(n))) => match n
                .as_u64() {
                Some(e) => Some((t.clone(), e)),
                None => None,
            },
            _ => None,
        },
        _ => None,
    }
}

/// Relies on serde_json::from_str::<serde_json::Value> and
/// serde_json::to_string_pretty: the pretty-printed form of `body` when it
/// parses as JSON.
#[verifier::external_body]
fn pretty_json(body: &str) -> (r: Option<String>)
    ensures
        match r {
            Some(p) => pretty_json_of(body@) == Some(p@),
            None => pretty_json_of(body@) is None,
        },
{
    match serde_json::from_str::<serde_json::Value>(body) {
        Ok(v) => match serde_json::to_string_pretty(&v) {
            Ok(s) => Some(s),
            Err(_) => None,
        },
        Err(_) => None,
    }
}

/// The normalized message of a failed response: the structured error when
/// the body carries one, the raw body otherwise, behind the prefix.
pub open spec fn spec_normalized_error(prefix: Seq<char>, body: Seq<char>) -> Seq<char> {
    match error_field_of(body) {
        Some(e) => prefix + e,
        None => prefix + body,
    }
}

/// The error normalizer. A success status is success, whatever the body
/// says. Any other status becomes exactly one `ApiError` whose message is
/// the normalized body behind `prefix` — a non-success status is never
/// silently ignored.
pub fn handle_error(prefix: &str, status: u16, body: &str) -> (r: Result<(), Error>)
    ensures
        r is Ok <==> spec_is_success(status),
        !spec_is_success(status) ==> (r matches Err(Error::ApiError { message }) && message@
            == spec_normalized_error(prefix@, body@)),
{
    if is_success(status) {
        Ok(())
    } else {
        let mut message = prefix.to_owned();
        match extract_error_field(body) {
            Some(e) => message.append(e.as_str()),
            None => message.append(body),
        }
        Err(Error::ApiError { message })
    }
}

/// Decodes the compile endpoint's response: a failed status is normalized
/// with no prefix; a success body must carry the `{"ok": id}` module id,
/// else the response is malformed.
pub fn upload_outcome(status: u16, body: &str) -> (r: Result<String, Error>)
    ensures
        !spec_is_success(status) ==> (r matches Err(Error::ApiError { message }) && message@
            == spec_normalized_error(""@, body@)),
        spec_is_success(status) ==> match ok_field_of(body@) {
            Some(id) => r matches Ok(m) && m@ == id,
            None => r matches Err(Error::DecodeError { .. }),
        },
{
    match handle_error("", status, body) {
        Err(e) => Err(e),
        Ok(()) => match extract_ok_field(body) {
            Some(id) => Ok(id),
            None => Err(
                Error::DecodeError {
                    message: String::from_str("Malformed compile response."),
                },
            ),
        },
    }
}

/// Decodes the login endpoint's response: a failed status is normalized
/// behind `Login error: `; a success body must carry the access token and
/// its validity in seconds.
pub fn login_outcome(status: u16, body: &str) -> (r: Result<(String, u64), Error>)
    ensures
        !spec_is_success(status) ==> (r matches Err(Error::ApiError { message }) && message@
            == spec_normalized_error("Login error: "@, body@)),
        spec_is_success(status) ==> match login_fields_of(body@) {
            Some(fields) => r matches Ok(p) && p.0@ == fields.0 && p.1 == fields.1,
            None => r matches Err(Error::DecodeError { .. }),
        },
{
    match handle_error("Login error: ", status, body) {
        Err(e) => Err(e),
        Ok(()) => match extract_login_fields(body) {
            Some(fields) => Ok(fields),
            None => Err(
                Error::DecodeError {
                    message: String::from_str("Malformed login response."),
                },
            ),
        },
    }
}

/// Decodes the host view response: a failed status is normalized with no
/// prefix; a success body is returned pretty-printed and uninterpreted.
pub fn view_outcome(status: u16, body: &str) -> (r: Result<String, Error>)
    ensures
        !spec_is_success(status) ==> (r matches Err(Error::ApiError { message }) && message@
            == spec_normalized_error(""@, body@)),
        spec_is_success(status) ==> match pretty_json_of(body@) {
            Some(p) => r matches Ok(text) && text@ == p,
            None => r matches Err(Error::DecodeError { .. }),
        },
{
    match handle_error("", status, body) {
        Err(e) => Err(e),
        Ok(()) => match pretty_json(body) {
            Some(text) => Ok(text),
            None => Err(
                Error::DecodeError {
                    message: String::from_str("Malformed host description."),
                },
            ),
        },
    }
}

} // verus!
