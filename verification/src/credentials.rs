//! The credential store: one token per (service, account) pair with an
//! absolute expiry timestamp. The durable write itself is the platform
//! credential facility's job; this module owns the entry format and the
//! read-side validation: an entry is usable only while `now < expires_at`,
//! and an expired or absent entry is reported as such, never returned.

use vstd::prelude::*;

use crate::errors::Error;
use crate::numerals::{
    all_dec_digits, dec_digits, dec_value, is_dec_digit, lemma_dec_round_trip, parse_u64_dec,
    u64_to_dec,
};
use crate::scan::{find_char_from, find_from, lemma_find_from};

verus! {

/// A service endpoint and account label; the key under which one credential
/// entry is persisted, and the base for request URLs.
#[derive(Debug, Clone)]
pub struct Client {
    pub service: String,
    pub account: String,
}

/// The stored form of a credential entry: the expiry timestamp in decimal,
/// one newline, then the token verbatim (the token may itself hold
/// newlines; only the first newline of the entry delimits). The credential
/// facility stores an opaque string and fixes no form of its own; this
/// library fixes this one, with a proved round trip
/// (`lemma_entry_round_trip`). An entry some other writer left under the
/// same key reads back as malformed, which costs at most one re-login.
pub open spec fn spec_encode_entry(token: Seq<char>, expires_at: u64) -> Seq<char> {
    dec_digits(expires_at as nat) + seq!['\n'] + token
}

/// Reading the stored form back: the digits before the first newline are
/// the expiry, the rest is the token. `None` for anything malformed.
pub open spec fn spec_parse_entry(s: Seq<char>) -> Option<(u64, Seq<char>)> {
    match find_from(s, 0, '\n') {
        Some(i) => {
            let digits = s.take(i);
            if digits.len() > 0 && all_dec_digits(digits) && dec_value(digits) <= u64::MAX {
                Some(((dec_value(digits) as u64), s.skip(i + 1)))
            } else {
                None
            }
        },
        None => None,
    }
}

/// What a read of the credential store yields, before it is mapped onto
/// `Error`: the store may be empty, hold a malformed entry, hold an entry
/// that is no longer live, or yield the token.
pub enum ReadOutcome {
    NotFound,
    Malformed,
    Expired,
    Token(Seq<char>),
}

/// The outcome of reading the store when it holds `stored` and the clock
/// says `now`. An entry is live only while `now < expires_at`.
pub open spec fn spec_read_entry(stored: Option<Seq<char>>, now: u64) -> ReadOutcome {
    match stored {
        None => ReadOutcome::NotFound,
        Some(blob) => match spec_parse_entry(blob) {
            None => ReadOutcome::Malformed,
            Some((expires_at, token)) => if expires_at <= now {
                ReadOutcome::Expired
            } else {
                ReadOutcome::Token(token)
            },
        },
    }
}

/// View of an optional stored entry.
pub open spec fn opt_view(o: Option<String>) -> Option<Seq<char>> {
    match o {
        Some(s) => Some(s@),
        None => None,
    }
}

/// An entry whose expiry is not in the future is never yielded by a read:
/// it is always reported as expired.
pub proof fn lemma_expired_entry_never_returned(blob: Seq<char>, now: u64)
    requires
        spec_parse_entry(blob) matches Some(e) && e.0 <= now,
    ensures
        spec_read_entry(Some(blob), now) == ReadOutcome::Expired,
{
}

/// A delete leaves the store empty, and a read of the empty store always
/// reports the credential as not found, whatever the clock says.
pub proof fn lemma_delete_then_get(now: u64)
    ensures
        spec_read_entry(None, now) == ReadOutcome::NotFound,
{
}

/// Round trip of the entry format: an entry written for `token` with expiry
/// `expires_at` parses back to exactly that pair, so a read returns the
/// token while `now < expires_at` and the expired failure from then on.
pub proof fn lemma_entry_round_trip(token: Seq<char>, expires_at: u64, now: u64)
    ensures
        spec_parse_entry(spec_encode_entry(token, expires_at)) == Some((expires_at, token)),
        now < expires_at ==> spec_read_entry(Some(spec_encode_entry(token, expires_at)), now)
            == ReadOutcome::Token(token),
        expires_at <= now ==> spec_read_entry(Some(spec_encode_entry(token, expires_at)), now)
            == ReadOutcome::Expired,
{
    let enc = spec_encode_entry(token, expires_at);
    let d = dec_digits(expires_at as nat);
    lemma_dec_round_trip(expires_at as nat);
    lemma_find_from(enc, 0, '\n');
    assert(enc[d.len() as int] == '\n');
    assert(forall|j: int| 0 <= j < d.len() ==> enc[j] == d[j]);
    assert(forall|j: int| 0 <= j < d.len() ==> is_dec_digit(#[trigger] enc[j]));
    assert(forall|j: int| 0 <= j < d.len() ==> enc[j] != '\n');
    assert(find_from(enc, 0, '\n') == Some(d.len() as int));
    assert(enc.take(d.len() as int) =~= d);
    assert(enc.skip(d.len() as int + 1) =~= token);
}

/// What a successful login leaves behind: the entry stored at `login_at`
/// for a token valid `expires_in` seconds reads back as that token at any
/// `now` before `login_at + expires_in`, and as expired from then on.
pub proof fn lemma_stored_login_lifetime(
    token: Seq<char>,
    expires_in: u64,
    login_at: u64,
    now: u64,
)
    requires
        login_at + expires_in <= u64::MAX,
    ensures
        spec_read_entry(Some(spec_encode_entry(token, (login_at + expires_in) as u64)), now) == (
        if now < login_at + expires_in {
            ReadOutcome::Token(token)
        } else {
            ReadOutcome::Expired
        }),
{
    lemma_entry_round_trip(token, (login_at + expires_in) as u64, now);
}

/// Reads a stored entry: the decimal expiry before the first newline, then
/// the token. `None` exactly when the stored text is not of that form.
pub fn parse_entry(blob: &str) -> (r: Option<(u64, String)>)
    ensures
        r is Some <==> spec_parse_entry(blob@) is Some,
        r matches Some((e, t)) ==> spec_parse_entry(blob@) == Some((e, t@)),
{
    let len = blob.unicode_len();
    match find_char_from(blob, 0, '\n') {
        None => None,
        Some(i) => {
            proof {
                lemma_find_from(blob@, 0, '\n');
            }
            let digits = blob.substring_char(0, i);
            assert(digits@ =~= blob@.take(i as int));
            match parse_u64_dec(digits) {
                None => None,
                Some(expires_at) => {
                    let token = blob.substring_char(i + 1, len);
                    assert(token@ =~= blob@.skip(i + 1));
                    Some((expires_at, token.to_owned()))
                },
            }
        },
    }
}

impl Client {
    /// A client context for one service endpoint and account label.
    pub fn new(service: String, account: String) -> (r: Self)
        ensures
            r.service == service,
            r.account == account,
    {
        Client { service, account }
    }

    /// The full URL for `path`: the service base followed by the path
    /// verbatim (the caller supplies the leading slash).
    pub fn url(&self, path: &str) -> (r: String)
        ensures
            r@ == self.service@ + path@,
    {
        let mut r = self.service.clone();
        r.append(path);
        r
    }

    /// The entry to persist for a login that returned `access_token` with
    /// `expires_in` seconds of validity at time `now`: its expiry is
    /// `now + expires_in`.
    pub fn set(&self, access_token: &str, expires_in: u64, now: u64) -> (blob: String)
        requires
            now + expires_in <= u64::MAX,
        ensures
            blob@ == spec_encode_entry(access_token@, (now + expires_in) as u64),
    {
        proof {
            reveal_strlit("\n");
        }
        let expires_at = now + expires_in;
        let mut blob = u64_to_dec(expires_at);
        blob.append("\n");
        blob.append(access_token);
        assert(blob@ =~= spec_encode_entry(access_token@, (now + expires_in) as u64));
        blob
    }

    /// Validates what the credential facility returned for this client's
    /// key at time `now` and yields the raw token of a live entry. Fails
    /// with `CredentialNotFound` (carrying this account's label) when the
    /// store holds nothing, with `DecodeError` when the entry is
    /// malformed, and with `CredentialExpired` when the entry's expiry is
    /// not in the future. Reading never extends an entry's life.
    pub fn get_password(&self, stored: Option<String>, now: u64) -> (r: Result<String, Error>)
        ensures
            match spec_read_entry(opt_view(stored), now) {
                ReadOutcome::NotFound => r matches Err(Error::CredentialNotFound { account })
                    && account == self.account,
                ReadOutcome::Malformed => r matches Err(Error::DecodeError { .. }),
                ReadOutcome::Expired => r matches Err(Error::CredentialExpired),
                ReadOutcome::Token(t) => r matches Ok(token) && token@ == t,
            },
    {
        match stored {
            None => Err(Error::CredentialNotFound { account: self.account.clone() }),
            Some(blob) => match parse_entry(blob.as_str()) {
                None => Err(
                    Error::DecodeError {
                        message: String::from_str("Stored credential entry is malformed."),
                    },
                ),
                Some((expires_at, token)) => if expires_at <= now {
                    Err(Error::CredentialExpired)
                } else {
                    Ok(token)
                },
            },
        }
    }

    /// The outcome of removing this client's entry: the removal is the
    /// facility's, and `found` says whether an entry was there. A missing
    /// entry is surfaced as `CredentialNotFound`, not swallowed.
    pub fn delete(&self, found: bool) -> (r: Result<(), Error>)
        ensures
            found <==> r is Ok,
            !found ==> (r matches Err(Error::CredentialNotFound { account })
                && account == self.account),
    {
        if found {
            Ok(())
        } else {
            Err(Error::CredentialNotFound { account: self.account.clone() })
        }
    }
}

} // verus!

