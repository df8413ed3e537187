use wasp::errors::Error;

#[test]
fn transport_error_message_is_the_text() {
    let err = Error::TransportError { message: "connection refused".to_owned() };
    assert_eq!(err.message(), "connection refused");
}

#[test]
fn io_error_message_is_the_text() {
    let err = Error::IoError { message: "No such file or directory".to_owned() };
    assert_eq!(err.message(), "No such file or directory");
}

#[test]
fn api_error_message_is_the_normalized_text() {
    let err = Error::ApiError { message: "Login error: bad password".to_owned() };
    assert_eq!(err.message(), "Login error: bad password");
}

#[test]
fn decode_error_message_is_the_text() {
    let err = Error::DecodeError { message: "Malformed compile response.".to_owned() };
    assert_eq!(err.message(), "Malformed compile response.");
}

#[test]
fn credential_messages_depend_on_the_account() {
    assert_eq!(
        Error::CredentialNotFound { account: "default".to_owned() }.message(),
        "No account found. Log in with `wasp login USERNAME`."
    );
    assert_eq!(
        Error::CredentialNotFound { account: "alice".to_owned() }.message(),
        "No account found. Log in with `wasp login USERNAME --account alice`."
    );
    assert_eq!(
        Error::CredentialExpired.message(),
        "Login token is expired. Log in again with `wasp login`."
    );
}
