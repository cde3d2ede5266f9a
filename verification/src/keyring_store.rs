//! The Groq API key in the operating system's credential store. The key is
//! never written to disk by this library.
//!
//! The store itself is reached by the caller: each function is given the
//! access it needs (a write, a read or a deletion of one credential) and
//! states which credential, and which value, it hands to that access, and
//! what the store's answer means.

use vstd::prelude::*;
use crate::text::concat2;

verus! {

/// Service name under which the key is stored.
pub const SERVICE_NAME: &'static str = "aether-echo";

/// Account name under which the key is stored.
pub const API_KEY_ACCOUNT: &'static str = "groq-api-key";

/// One credential of the store: a service and an account.
pub struct Credential {
    pub service: String,
    pub account: String,
}

/// The credential that holds the Groq API key.
pub open spec fn is_api_key_credential(c: Credential) -> bool {
    c.service@ == "aether-echo"@ && c.account@ == "groq-api-key"@
}

/// The credential that holds the Groq API key.
pub fn api_key_credential() -> (c: Credential)
    ensures
        is_api_key_credential(c),
{
    Credential {
        service: String::from_str(SERVICE_NAME),
        account: String::from_str(API_KEY_ACCOUNT),
    }
}

/// A failure reported by the credential store.
pub enum KeyringFailure {
    /// No credential is stored for the entry.
    NoEntry,
    /// Any other failure, with the store's description of it.
    Other(String),
}

/// What the store answered to one access of a credential.
pub enum StoreAnswer<T> {
    /// The entry for the credential could not be created.
    EntryUnavailable,
    /// The entry was created, and the access gave this.
    Answered(Result<T, KeyringFailure>),
}

/// Failures of the key store.
pub enum KeyStoreError {
    /// The credential entry could not be created.
    EntryCreation,
    /// The store refused to save the key.
    Save,
    /// Reading the key failed, with the store's description.
    Load(String),
    /// Deleting the key failed, with the store's description.
    Delete(String),
}

/// The user-facing description of a key-store failure.
pub open spec fn key_store_error_text(e: KeyStoreError) -> Seq<char> {
    match e {
        KeyStoreError::EntryCreation => "Failed to create keyring entry"@,
        KeyStoreError::Save => "Failed to save API key to keyring"@,
        KeyStoreError::Load(d) => "Keyring error: "@ + d@,
        KeyStoreError::Delete(d) => "Keyring delete error: "@ + d@,
    }
}

impl KeyStoreError {
    pub fn message(&self) -> (s: String)
        ensures
            s@ == key_store_error_text(*self),
    {
        match self {
            KeyStoreError::EntryCreation => String::from_str("Failed to create keyring entry"),
            KeyStoreError::Save => String::from_str("Failed to save API key to keyring"),
            KeyStoreError::Load(d) => concat2("Keyring error: ", d.as_str()),
            KeyStoreError::Delete(d) => concat2("Keyring delete error: ", d.as_str()),
        }
    }
}

/// What the store's answer to a write means: any refusal is a failure to save.
pub open spec fn saved_key_spec(a: StoreAnswer<()>) -> Result<(), KeyStoreError> {
    match a {
        StoreAnswer::EntryUnavailable => Err(KeyStoreError::EntryCreation),
        StoreAnswer::Answered(Ok(())) => Ok(()),
        StoreAnswer::Answered(Err(_)) => Err(KeyStoreError::Save),
    }
}

/// Interprets the answer of the credential store to a write.
pub fn saved_key(a: StoreAnswer<()>) -> (out: Result<(), KeyStoreError>)
    ensures
        out == saved_key_spec(a),
{
    match a {
        StoreAnswer::EntryUnavailable => Err(KeyStoreError::EntryCreation),
        StoreAnswer::Answered(Ok(())) => Ok(()),
        StoreAnswer::Answered(Err(_)) => Err(KeyStoreError::Save),
    }
}

/// What the store's answer to a read means: a password is the key, no entry
/// means that no key is stored, anything else is a failure.
pub open spec fn loaded_key_spec(a: StoreAnswer<String>) -> Result<Option<String>, KeyStoreError> {
    match a {
        StoreAnswer::EntryUnavailable => Err(KeyStoreError::EntryCreation),
        StoreAnswer::Answered(Ok(k)) => Ok(Some(k)),
        StoreAnswer::Answered(Err(KeyringFailure::NoEntry)) => Ok(None),
        StoreAnswer::Answered(Err(KeyringFailure::Other(d))) => Err(KeyStoreError::Load(d)),
    }
}

/// Interprets the answer of the credential store to a read.
pub fn loaded_key(a: StoreAnswer<String>) -> (out: Result<Option<String>, KeyStoreError>)
    ensures
        out == loaded_key_spec(a),
{
    match a {
        StoreAnswer::EntryUnavailable => Err(KeyStoreError::EntryCreation),
        StoreAnswer::Answered(Ok(k)) => Ok(Some(k)),
        StoreAnswer::Answered(Err(KeyringFailure::NoEntry)) => Ok(None),
        StoreAnswer::Answered(Err(KeyringFailure::Other(d))) => Err(KeyStoreError::Load(d)),
    }
}

/// What the store's answer to a deletion means: a missing entry is already
/// deleted, any other refusal is a failure.
pub open spec fn deleted_key_spec(a: StoreAnswer<()>) -> Result<(), KeyStoreError> {
    match a {
        StoreAnswer::EntryUnavailable => Err(KeyStoreError::EntryCreation),
        StoreAnswer::Answered(Ok(())) => Ok(()),
        StoreAnswer::Answered(Err(KeyringFailure::NoEntry)) => Ok(()),
        StoreAnswer::Answered(Err(KeyringFailure::Other(d))) => Err(KeyStoreError::Delete(d)),
    }
}

/// Interprets the answer of the credential store to a deletion.
pub fn deleted_key(a: StoreAnswer<()>) -> (out: Result<(), KeyStoreError>)
    ensures
        out == deleted_key_spec(a),
{
    match a {
        StoreAnswer::EntryUnavailable => Err(KeyStoreError::EntryCreation),
        StoreAnswer::Answered(Ok(())) => Ok(()),
        StoreAnswer::Answered(Err(KeyringFailure::NoEntry)) => Ok(()),
        StoreAnswer::Answered(Err(KeyringFailure::Other(d))) => Err(KeyStoreError::Delete(d)),
    }
}

/// Saves the key in the credential store: `write` is asked, once, to store
/// exactly `api_key` under the API-key credential, and its answer is
/// interpreted by `saved_key`.
pub fn save_api_key<W: FnOnce(Credential, String) -> StoreAnswer<()>>(
    api_key: &str,
    write: W,
) -> (r: Result<(), KeyStoreError>)
    requires
        forall|c: Credential, k: String| k@ == api_key@ ==> #[trigger] write.requires((c, k)),
    ensures
        exists|c: Credential, k: String, a: StoreAnswer<()>|
            is_api_key_credential(c) && k@ == api_key@ && write.ensures((c, k), a) && r
                == saved_key_spec(a),
{
    let answer = write(api_key_credential(), String::from_str(api_key));
    saved_key(answer)
}

/// Reads the key from the credential store; `None` when no key is stored:
/// `read` is asked, once, for the API-key credential, and its answer is
/// interpreted by `loaded_key`.
pub fn load_api_key<R: FnOnce(Credential) -> StoreAnswer<String>>(read: R) -> (r: Result<
    Option<String>,
    KeyStoreError,
>)
    requires
        forall|c: Credential| read.requires((c,)),
    ensures
        exists|c: Credential, a: StoreAnswer<String>|
            is_api_key_credential(c) && read.ensures((c,), a) && r == loaded_key_spec(a),
{
    let answer = read(api_key_credential());
    loaded_key(answer)
}

/// Deletes the key from the credential store; deleting a key that is not
/// there succeeds: `delete` is asked, once, for the API-key credential, and
/// its answer is interpreted by `deleted_key`.
pub fn delete_api_key<D: FnOnce(Credential) -> StoreAnswer<()>>(delete: D) -> (r: Result<
    (),
    KeyStoreError,
>)
    requires
        forall|c: Credential| delete.requires((c,)),
    ensures
        exists|c: Credential, a: StoreAnswer<()>|
            is_api_key_credential(c) && delete.ensures((c,), a) && r == deleted_key_spec(a),
{
    let answer = delete(api_key_credential());
    deleted_key(answer)
}

/// Whether a read of the key store found a key.
pub open spec fn has_key_spec(r: Result<Option<String>, KeyStoreError>) -> bool {
    r matches Ok(Some(_))
}

/// Whether a key is stored: true exactly when reading the API-key
/// credential with `read` gives a key.
pub fn has_api_key<R: FnOnce(Credential) -> StoreAnswer<String>>(read: R) -> (b: bool)
    requires
        forall|c: Credential| read.requires((c,)),
    ensures
        exists|c: Credential, a: StoreAnswer<String>|
            is_api_key_credential(c) && read.ensures((c,), a) && b == has_key_spec(
                loaded_key_spec(a),
            ),
{
    let r = load_api_key(read);
    match r {
        Ok(Some(_)) => true,
        _ => false,
    }
}

/// Both the write and the read of the key reach the same credential, so a
/// key that the store accepted is the one that a later read asks for.
pub proof fn lemma_save_and_load_share_the_credential(c1: Credential, c2: Credential)
    requires
        is_api_key_credential(c1),
        is_api_key_credential(c2),
    ensures
        c1.service@ == c2.service@,
        c1.account@ == c2.account@,
{
}

} // verus!
