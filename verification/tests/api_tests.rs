use wasp::api::{bearer_header, handle_error, login_outcome, upload_outcome, view_outcome};
use wasp::errors::Error;

#[test]
fn bearer_header_carries_the_token() {
    assert_eq!(bearer_header("tok-123"), "Bearer tok-123");
    assert_eq!(bearer_header(""), "Bearer ");
}

#[test]
fn success_status_is_success_whatever_the_body() {
    assert!(handle_error("", 200, "{\"error\":\"ignored\"}").is_ok());
    assert!(handle_error("x: ", 204, "anything").is_ok());
    assert!(handle_error("", 299, "").is_ok());
}

#[test]
fn structured_error_body_yields_its_message() {
    let err = handle_error("", 400, "{\"error\":\"bad host\"}").unwrap_err();
    assert!(matches!(err, Error::ApiError { message } if message == "bad host"));
}

#[test]
fn prefix_is_prepended_verbatim() {
    let err = handle_error("Login error: ", 400, "{\"error\":\"bad host\"}").unwrap_err();
    assert!(matches!(err, Error::ApiError { message } if message == "Login error: bad host"));
}

#[test]
fn raw_body_is_the_message_when_not_structured() {
    let err = handle_error("", 500, "oops").unwrap_err();
    assert!(matches!(err, Error::ApiError { message } if message == "oops"));
}

#[test]
fn non_string_error_field_falls_back_to_raw_body() {
    let err = handle_error("", 500, "{\"error\":7}").unwrap_err();
    assert!(matches!(err, Error::ApiError { message } if message == "{\"error\":7}"));
}

#[test]
fn upload_success_yields_module_id() {
    let id = upload_outcome(200, "{\"ok\":\"m_42\"}").unwrap();
    assert_eq!(id, "m_42");
}

#[test]
fn upload_failure_is_normalized() {
    let err = upload_outcome(500, "{\"error\":\"compile failed\"}").unwrap_err();
    assert!(matches!(err, Error::ApiError { message } if message == "compile failed"));
}

#[test]
fn malformed_upload_success_body_fails_decode() {
    let err = upload_outcome(200, "{\"id\":\"m_42\"}").unwrap_err();
    assert!(matches!(err, Error::DecodeError { .. }));
    let err = upload_outcome(200, "not json").unwrap_err();
    assert!(matches!(err, Error::DecodeError { .. }));
}

#[test]
fn login_success_yields_token_and_validity() {
    let (token, expires_in) =
        login_outcome(200, "{\"access_token\":\"tok\",\"expires_in\":3600}").unwrap();
    assert_eq!(token, "tok");
    assert_eq!(expires_in, 3600);
}

#[test]
fn login_failure_carries_the_login_prefix() {
    let err = login_outcome(401, "{\"error\":\"bad password\"}").unwrap_err();
    assert!(matches!(err, Error::ApiError { message } if message == "Login error: bad password"));
}

#[test]
fn malformed_login_success_body_fails_decode() {
    let err = login_outcome(200, "{\"access_token\":\"tok\"}").unwrap_err();
    assert!(matches!(err, Error::DecodeError { .. }));
}

#[test]
fn view_success_pretty_prints_the_body_verbatim() {
    let text = view_outcome(200, "{\"host\":\"myhost\",\"module\":\"m_1\"}").unwrap();
    assert_eq!(text, "{\n  \"host\": \"myhost\",\n  \"module\": \"m_1\"\n}");
}

#[test]
fn view_failure_is_normalized() {
    let err = view_outcome(404, "{\"error\":\"no such host\"}").unwrap_err();
    assert!(matches!(err, Error::ApiError { message } if message == "no such host"));
}
