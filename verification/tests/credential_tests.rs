use wasp::credentials::{parse_entry, Client};
use wasp::errors::Error;

fn client(account: &str) -> Client {
    Client::new("https://api.wasp.ws".to_owned(), account.to_owned())
}

#[test]
fn url_concatenates_service_and_path() {
    let c = client("default");
    assert_eq!(c.url("/hosts/myhost"), "https://api.wasp.ws/hosts/myhost");
}

#[test]
fn entry_round_trips_through_storage_form() {
    let c = client("default");
    let blob = c.set("tok-123", 3600, 1_000);
    assert_eq!(blob, "4600\ntok-123");
    let (expires_at, token) = parse_entry(&blob).unwrap();
    assert_eq!(expires_at, 4600);
    assert_eq!(token, "tok-123");
}

#[test]
fn token_with_newline_round_trips() {
    let c = client("default");
    let blob = c.set("a\nb", 5, 10);
    let (expires_at, token) = parse_entry(&blob).unwrap();
    assert_eq!(expires_at, 15);
    assert_eq!(token, "a\nb");
}

#[test]
fn live_entry_is_returned() {
    let c = client("default");
    let blob = c.set("tok", 3600, 1_000);
    let token = c.get_password(Some(blob), 4599).unwrap();
    assert_eq!(token, "tok");
}

#[test]
fn entry_expiring_now_fails_expired() {
    let c = client("default");
    let blob = c.set("tok", 3600, 1_000);
    let err = c.get_password(Some(blob), 4600).unwrap_err();
    assert!(matches!(err, Error::CredentialExpired));
}

#[test]
fn expired_entry_message_instructs_relogin() {
    let c = client("default");
    let blob = c.set("tok", 0, 7);
    let err = c.get_password(Some(blob), 100).unwrap_err();
    assert_eq!(
        err.message(),
        "Login token is expired. Log in again with `wasp login`."
    );
}

#[test]
fn missing_entry_fails_not_found_default_account() {
    let c = client("default");
    let err = c.get_password(None, 0).unwrap_err();
    assert!(matches!(&err, Error::CredentialNotFound { account } if account == "default"));
    assert_eq!(
        err.message(),
        "No account found. Log in with `wasp login USERNAME`."
    );
}

#[test]
fn missing_entry_message_names_the_account() {
    let c = client("work");
    let err = c.get_password(None, 0).unwrap_err();
    assert_eq!(
        err.message(),
        "No account found. Log in with `wasp login USERNAME --account work`."
    );
}

#[test]
fn malformed_entry_fails_decode() {
    let c = client("default");
    let err = c.get_password(Some("no newline here".to_owned()), 0).unwrap_err();
    assert!(matches!(err, Error::DecodeError { .. }));
    let err = c.get_password(Some("12x\ntok".to_owned()), 0).unwrap_err();
    assert!(matches!(err, Error::DecodeError { .. }));
    let err = c.get_password(Some("\ntok".to_owned()), 0).unwrap_err();
    assert!(matches!(err, Error::DecodeError { .. }));
}

#[test]
fn delete_surfaces_missing_entry() {
    let c = client("default");
    assert!(c.delete(true).is_ok());
    let err = c.delete(false).unwrap_err();
    assert!(matches!(err, Error::CredentialNotFound { .. }));
}

#[test]
fn delete_then_get_fails_not_found() {
    let c = client("default");
    // After a delete the facility holds nothing for the key.
    let err = c.get_password(None, 12345).unwrap_err();
    assert!(matches!(err, Error::CredentialNotFound { .. }));
}
