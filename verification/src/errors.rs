//! The error taxonomy of the client: credential failures, transport
//! failures, normalized API errors, and local file or decode failures.
//! Every variant renders to exactly one human-readable message.

use vstd::prelude::*;

verus! {

/// Everything a client operation can fail with.
///
/// `CredentialNotFound` keeps the account label it was raised for, so its
/// message can tell a named account apart from the default one.
#[derive(Debug)]
pub enum Error {
    CredentialNotFound { account: String },
    CredentialExpired,
    TransportError { message: String },
    ApiError { message: String },
    IoError { message: String },
    DecodeError { message: String },
}

impl Error {
    /// The message `message()` renders for this error.
    pub open spec fn spec_message(&self) -> Seq<char> {
        match self {
            Error::CredentialNotFound { account } => if account@ == "default"@ {
                "No account found. Log in with `wasp login USERNAME`."@
            } else {
                "No account found. Log in with `wasp login USERNAME --account "@ + account@
                    + "`."@
            },
            Error::CredentialExpired => "Login token is expired. Log in again with `wasp login`."@,
            Error::TransportError { message } => message@,
            Error::ApiError { message } => message@,
            Error::IoError { message } => message@,
            Error::DecodeError { message } => message@,
        }
    }

    /// Renders the single human-readable message for this error.
    pub fn message(&self) -> (r: String)
        ensures
            r@ == self.spec_message(),
    {
        match self {
            Error::CredentialNotFound { account } => {
                let default_label = String::from_str("default");
                if *account == default_label {
                    String::from_str("No account found. Log in with `wasp login USERNAME`.")
                } else {
                    let mut r = String::from_str(
                        "No account found. Log in with `wasp login USERNAME --account ",
                    );
                    r.append(account.as_str());
                    r.append("`.");
                    r
                }
            },
            Error::CredentialExpired => String::from_str(
                "Login token is expired. Log in again with `wasp login`.",
            ),
            Error::TransportError { message } => message.clone(),
            Error::ApiError { message } => message.clone(),
            Error::IoError { message } => message.clone(),
            Error::DecodeError { message } => message.clone(),
        }
    }
}

} // verus!
