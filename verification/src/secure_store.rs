//! The API token in the credential store of the operating system.

use crate::text::{contains_text, is_blank, joined, text_contains, trimmed};
use vstd::prelude::*;

verus! {

/// An entry of the credential store, as the `keyring` crate holds it.
#[verifier::external_type_specification]
#[verifier::external_body]
pub struct ExEntry(keyring::Entry);

/// A failure of the credential store, as the `keyring` crate reports it.
#[verifier::external_type_specification]
#[verifier::external_body]
pub struct ExError(keyring::Error);

/// `keyring::Entry::new`: the entry for a service and a user. Nothing is
/// claimed of the result: which pairs are valid depends on the platform. The
/// call returns for every pair of texts; it gives up only where the lock
/// around the crate's credential builder is poisoned, that is after a panic
/// elsewhere in the process.
pub assume_specification[ keyring::Entry::new ](service: &str, user: &str) -> (r: keyring::Result<
    keyring::Entry,
>)
;

/// `keyring::Entry::set_password`: stores a password under the entry.
/// Nothing is claimed of the result: it depends on the store.
pub assume_specification[ keyring::Entry::set_password ](
    entry: &keyring::Entry,
    password: &str,
) -> (r: keyring::Result<()>)
;

/// `keyring::Entry::get_password`: the password stored under the entry.
/// Nothing is claimed of the result: it depends on the store.
pub assume_specification[ keyring::Entry::get_password ](entry: &keyring::Entry) -> (r:
    keyring::Result<String>)
;

/// `keyring::Entry::delete_credential`: removes what is stored under the
/// entry. Nothing is claimed of the result: it depends on the store.
pub assume_specification[ keyring::Entry::delete_credential ](entry: &keyring::Entry) -> (r:
    keyring::Result<()>)
;

/// Why the token could not be stored or read.
#[derive(Debug, Clone, PartialEq, Eq)]
pub enum TokenStoreError {
    /// The store gave no entry for the service and the account.
    EntryUnavailable,
    /// The store refused the token.
    StoreFailed,
    /// The store failed to read the token; the text is the store's own.
    ReadFailed(String),
}

/// The message of an error.
pub open spec fn error_message(error: TokenStoreError) -> Seq<char> {
    match error {
        TokenStoreError::EntryUnavailable => "failed to create keyring entry"@,
        TokenStoreError::StoreFailed => "failed to store API token in secure keyring"@,
        TokenStoreError::ReadFailed(text) => "failed to read API token from secure keyring: "@
            + text@,
    }
}

impl TokenStoreError {
    /// The error in words.
    pub fn message(&self) -> (r: String)
        ensures
            r@ == error_message(*self),
    {
        match self {
            TokenStoreError::EntryUnavailable => "failed to create keyring entry".to_owned(),
            TokenStoreError::StoreFailed => "failed to store API token in secure keyring".to_owned(),
            TokenStoreError::ReadFailed(text) => joined(
                "failed to read API token from secure keyring: ",
                text.as_str(),
            ),
        }
    }
}

/// Whether the text of a failed read says that nothing is stored.
pub open spec fn says_no_entry(text: Seq<char>) -> bool {
    contains_text(text, "NoEntry"@) || contains_text(text, "not found"@)
}

/// What a read of the store means, the store's failure given by its text:
/// a blank password is no token, and neither is a failure that says that
/// nothing is stored; any other failure is an error.
pub open spec fn token_of_read(outcome: Result<Seq<char>, Seq<char>>) -> Result<
    Option<Seq<char>>,
    Seq<char>,
> {
    match outcome {
        Ok(token) => if trimmed(token).len() == 0 {
            Ok(None)
        } else {
            Ok(Some(token))
        },
        Err(text) => if says_no_entry(text) {
            Ok(None)
        } else {
            Err(text)
        },
    }
}

/// Decides what a read of the store means.
pub fn token_from_read(outcome: Result<String, String>) -> (r: Result<
    Option<String>,
    TokenStoreError,
>)
    ensures
        match (r, token_of_read(
            match outcome {
                Ok(token) => Ok(token@),
                Err(text) => Err(text@),
            },
        )) {
            (Ok(Some(token)), Ok(Some(expected))) => token@ == expected,
            (Ok(None), Ok(None)) => true,
            (Err(TokenStoreError::ReadFailed(text)), Err(expected)) => text@ == expected,
            _ => false,
        },
{
    match outcome {
        Ok(token) => {
            if is_blank(token.as_str()) {
                Ok(None)
            } else {
                Ok(Some(token))
            }
        },
        Err(text) => {
            if text_contains(text.as_str(), "NoEntry") || text_contains(text.as_str(), "not found") {
                Ok(None)
            } else {
                Err(TokenStoreError::ReadFailed(text))
            }
        },
    }
}

/// What the store's answer to the request for an entry means: the entry
/// that it gave, or that none is to be had, whatever its reason.
pub fn entry_from_open(outcome: keyring::Result<keyring::Entry>) -> (r: Result<
    keyring::Entry,
    TokenStoreError,
>)
    ensures
        match outcome {
            Ok(entry) => r == Ok::<keyring::Entry, TokenStoreError>(entry),
            Err(_) => r == Err::<keyring::Entry, TokenStoreError>(
                TokenStoreError::EntryUnavailable,
            ),
        },
{
    match outcome {
        Ok(entry) => Ok(entry),
        Err(_) => Err(TokenStoreError::EntryUnavailable),
    }
}

/// What the store's answer to a write means: the token is stored, or the
/// store refused it, whatever its reason.
pub fn stored_from_write(outcome: keyring::Result<()>) -> (r: Result<(), TokenStoreError>)
    ensures
        match outcome {
            Ok(()) => r == Ok::<(), TokenStoreError>(()),
            Err(_) => r == Err::<(), TokenStoreError>(TokenStoreError::StoreFailed),
        },
{
    match outcome {
        Ok(()) => Ok(()),
        Err(_) => Err(TokenStoreError::StoreFailed),
    }
}

/// Where the API token is kept: the service and the account under which the
/// credential store files it.
#[derive(Debug, Clone)]
pub struct SecureTokenStore {
    service: String,
    account: String,
}

impl SecureTokenStore {
    /// The service under which the token is filed.
    pub closed spec fn service(&self) -> Seq<char> {
        self.service@
    }

    /// The account under which the token is filed.
    pub closed spec fn account(&self) -> Seq<char> {
        self.account@
    }

    /// The store of the application with the given identifier.
    pub fn new(app_identifier: &str) -> (r: Self)
        ensures
            r.service() == app_identifier@,
            r.account() == "cloudflare_api_token"@,
    {
        SecureTokenStore {
            service: app_identifier.to_owned(),
            account: "cloudflare_api_token".to_owned(),
        }
    }

    fn entry(&self) -> (r: Result<keyring::Entry, TokenStoreError>)
        ensures
            r matches Err(error) ==> error == TokenStoreError::EntryUnavailable,
    {
        entry_from_open(keyring::Entry::new(self.service.as_str(), self.account.as_str()))
    }

    /// Stores the token. What the store answers is not known beforehand;
    /// a failure is one of the two that storing can meet.
    pub fn set_token(&self, token: &str) -> (r: Result<(), TokenStoreError>)
        ensures
            r matches Err(error) ==> error == TokenStoreError::EntryUnavailable || error
                == TokenStoreError::StoreFailed,
    {
        let entry = match self.entry() {
            Ok(entry) => entry,
            Err(error) => {
                return Err(error);
            },
        };
        stored_from_write(entry.set_password(token))
    }

    /// Reads the token. What the store answers is not known beforehand; a
    /// token that is returned is not blank, and a failed read is reported only
    /// where its text does not say that nothing is stored.
    pub fn get_token(&self) -> (r: Result<Option<String>, TokenStoreError>)
        ensures
            match r {
                Ok(Some(token)) => trimmed(token@).len() > 0,
                Ok(None) => true,
                Err(TokenStoreError::ReadFailed(text)) => !says_no_entry(text@),
                Err(error) => error == TokenStoreError::EntryUnavailable,
            },
    {
        let entry = match self.entry() {
            Ok(entry) => entry,
            Err(error) => {
                return Err(error);
            },
        };
        let outcome = match entry.get_password() {
            Ok(token) => Ok(token),
            Err(error) => Err(error.to_string()),
        };
        token_from_read(outcome)
    }

    /// Removes the token. Whether anything was stored does not matter; only
    /// a store that gives no entry is a failure.
    pub fn clear_token(&self) -> (r: Result<(), TokenStoreError>)
        ensures
            r matches Err(error) ==> error == TokenStoreError::EntryUnavailable,
    {
        let entry = match self.entry() {
            Ok(entry) => entry,
            Err(error) => {
                return Err(error);
            },
        };
        let _ = entry.delete_credential();
        Ok(())
    }
}

} // verus!
