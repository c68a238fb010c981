//! The credential store: one bearer token kept in the platform's secret
//! store under a fixed service and account name.
use vstd::prelude::*;

use crate::error::{AppError, ErrorView};
use crate::text::join;

verus! {

/// The service under which the token is stored.
pub const SERVICE_NAME: &'static str = "VRChatGroupManager";

/// The account under which the token is stored.
pub const ACCOUNT_NAME: &'static str = "api_token";

/// How the secret store refused an operation, with the store's own text.
#[derive(Debug, Clone)]
pub enum StoreFailure {
    /// No credential is stored under the entry.
    NoEntry(String),
    /// The platform's store failed; the text is the platform's error.
    Platform(String),
    /// Any other refusal.
    Other(String),
}

#[verifier::external_type_specification]
#[verifier::external_body]
pub struct ExEntry(keyring::Entry);

#[verifier::external_type_specification]
#[verifier::external_body]
pub struct ExKeyringError(keyring::Error);

/// Relies on keyring::Error's variants and `Display`: tells a missing entry
/// and a platform failure apart from the rest, keeping each one's text.
#[verifier::external_body]
fn store_failure(e: keyring::Error) -> StoreFailure {
    match &e {
        keyring::Error::NoEntry => StoreFailure::NoEntry(e.to_string()),
        keyring::Error::PlatformFailure(m) => StoreFailure::Platform(m.to_string()),
        _ => StoreFailure::Other(e.to_string()),
    }
}

/// Relies on keyring::Entry::new: the entry for a service and an account,
/// or the text of why none can be made.
#[verifier::external_body]
fn new_entry(service: &str, account: &str) -> Result<keyring::Entry, String> {
    match keyring::Entry::new(service, account) {
        Ok(entry) => Ok(entry),
        Err(e) => Err(e.to_string()),
    }
}

/// Relies on keyring::Entry::set_password: stores the secret, replacing any
/// earlier one.
#[verifier::external_body]
fn set_password(entry: &keyring::Entry, secret: &str) -> Result<(), StoreFailure> {
    match entry.set_password(secret) {
        Ok(()) => Ok(()),
        Err(e) => Err(store_failure(e)),
    }
}

/// Relies on keyring::Entry::get_password: the stored secret.
#[verifier::external_body]
fn get_password(entry: &keyring::Entry) -> Result<String, StoreFailure> {
    match entry.get_password() {
        Ok(secret) => Ok(secret),
        Err(e) => Err(store_failure(e)),
    }
}

/// Relies on keyring::Entry::delete_credential: removes the stored secret.
#[verifier::external_body]
fn delete_credential(entry: &keyring::Entry) -> Result<(), StoreFailure> {
    match entry.delete_credential() {
        Ok(()) => Ok(()),
        Err(e) => Err(store_failure(e)),
    }
}

/// The `Storage` error for a refusal of the store while doing `action`.
pub open spec fn failure_error(f: StoreFailure, action: Seq<char>) -> ErrorView {
    match f {
        StoreFailure::Platform(m) => ErrorView::Storage("Platform error: "@ + m@),
        StoreFailure::NoEntry(m) => ErrorView::Storage("Failed to "@ + action + " token: "@ + m@),
        StoreFailure::Other(m) => ErrorView::Storage("Failed to "@ + action + " token: "@ + m@),
    }
}

fn failure_to_error(f: StoreFailure, action: &str) -> (r: AppError)
    ensures
        r@ == failure_error(f, action@),
{
    match f {
        StoreFailure::Platform(m) => AppError::Storage(join("Platform error: ", m.as_str())),
        StoreFailure::NoEntry(m) | StoreFailure::Other(m) => {
            let mut s = join("Failed to ", action);
            s.append(" token: ");
            s.append(m.as_str());
            AppError::Storage(s)
        },
    }
}

/// What saving returns when the store answered `outcome`: every refusal is a
/// `Storage` error.
pub open spec fn saved(outcome: Result<(), StoreFailure>, r: Result<(), AppError>) -> bool {
    match outcome {
        Ok(()) => r is Ok,
        Err(f) => r is Err && r->Err_0@ == failure_error(f, "save"@),
    }
}

/// What loading returns when the store answered `outcome`: a missing entry
/// is no token, not an error.
pub open spec fn loaded(outcome: Result<String, StoreFailure>, r: Result<Option<String>, AppError>) -> bool {
    match outcome {
        Ok(t) => r == Ok::<Option<String>, AppError>(Some(t)),
        Err(StoreFailure::NoEntry(_)) => r == Ok::<Option<String>, AppError>(None),
        Err(f) => r is Err && r->Err_0@ == failure_error(f, "load"@),
    }
}

/// What deleting returns when the store answered `outcome`: a missing entry
/// is already deleted, not an error.
pub open spec fn deleted(outcome: Result<(), StoreFailure>, r: Result<(), AppError>) -> bool {
    match outcome {
        Ok(()) => r is Ok,
        Err(StoreFailure::NoEntry(_)) => r is Ok,
        Err(f) => r is Err && r->Err_0@ == failure_error(f, "delete"@),
    }
}

/// The result of saving, from the store's answer.
pub fn save_outcome(outcome: Result<(), StoreFailure>) -> (r: Result<(), AppError>)
    ensures
        saved(outcome, r),
{
    match outcome {
        Ok(()) => Ok(()),
        Err(f) => Err(failure_to_error(f, "save")),
    }
}

/// The result of loading, from the store's answer.
pub fn load_outcome(outcome: Result<String, StoreFailure>) -> (r: Result<Option<String>, AppError>)
    ensures
        loaded(outcome, r),
{
    match outcome {
        Ok(t) => Ok(Some(t)),
        Err(StoreFailure::NoEntry(_)) => Ok(None),
        Err(f) => Err(failure_to_error(f, "load")),
    }
}

/// The result of deleting, from the store's answer.
pub fn delete_outcome(outcome: Result<(), StoreFailure>) -> (r: Result<(), AppError>)
    ensures
        deleted(outcome, r),
{
    match outcome {
        Ok(()) => Ok(()),
        Err(StoreFailure::NoEntry(_)) => Ok(()),
        Err(f) => Err(failure_to_error(f, "delete")),
    }
}

/// How the results follow the store's state: with nothing stored, loading
/// gives no token and deleting succeeds, so deleting twice succeeds twice;
/// with a token stored, loading gives that token.
pub proof fn lemma_store_states(nothing_stored: String, stored: String)
    ensures
        forall|r: Result<Option<String>, AppError>|
            loaded(Err(StoreFailure::NoEntry(nothing_stored)), r) ==> r == Ok::<
                Option<String>,
                AppError,
            >(None),
        forall|r: Result<Option<String>, AppError>|
            loaded(Ok(stored), r) ==> r == Ok::<Option<String>, AppError>(Some(stored)),
        forall|r: Result<(), AppError>|
            deleted(Err(StoreFailure::NoEntry(nothing_stored)), r) ==> r is Ok,
        forall|r: Result<(), AppError>| deleted(Ok(()), r) ==> r is Ok,
{
}

/// Whether `e` is the error of an entry that could not be opened, with the
/// store's reason after the prefix.
pub open spec fn open_failure(e: ErrorView) -> bool {
    exists|m: Seq<char>| e == ErrorView::Storage("Failed to create keyring entry: "@ + m)
}

/// An open handle on the stored token.
pub struct TokenStore {
    entry: keyring::Entry,
}

impl TokenStore {
    /// Opens the entry under `SERVICE_NAME` and `ACCOUNT_NAME`.
    pub fn open() -> (r: Result<TokenStore, AppError>)
        ensures
            r is Err ==> open_failure(r->Err_0@),
    {
        match new_entry(SERVICE_NAME, ACCOUNT_NAME) {
            Ok(entry) => Ok(TokenStore { entry }),
            Err(m) => {
                let e = AppError::Storage(join("Failed to create keyring entry: ", m.as_str()));
                assert(e@ == ErrorView::Storage("Failed to create keyring entry: "@ + m@));
                Err(e)
            },
        }
    }

    /// Stores `token`, replacing any earlier one.
    pub fn save(&self, token: &str) -> (r: Result<(), AppError>)
        ensures
            exists|o: Result<(), StoreFailure>| saved(o, r),
    {
        let outcome = set_password(&self.entry, token);
        save_outcome(outcome)
    }

    /// The stored token, or `None` when there is none.
    pub fn load(&self) -> (r: Result<Option<String>, AppError>)
        ensures
            exists|o: Result<String, StoreFailure>| loaded(o, r),
    {
        let outcome = get_password(&self.entry);
        load_outcome(outcome)
    }

    /// Removes the stored token; removing an absent one succeeds.
    pub fn delete(&self) -> (r: Result<(), AppError>)
        ensures
            exists|o: Result<(), StoreFailure>| deleted(o, r),
    {
        let outcome = delete_credential(&self.entry);
        delete_outcome(outcome)
    }
}

/// Stores `token` in the secret store.
pub fn save_token(token: &str) -> (r: Result<(), AppError>)
    ensures
        (r is Err && open_failure(r->Err_0@)) || exists|o: Result<(), StoreFailure>| saved(o, r),
{
    let store = TokenStore::open()?;
    store.save(token)
}

/// The token in the secret store, or `None` when there is none.
pub fn load_token() -> (r: Result<Option<String>, AppError>)
    ensures
        (r is Err && open_failure(r->Err_0@)) || exists|o: Result<String, StoreFailure>| loaded(o, r),
{
    let store = TokenStore::open()?;
    store.load()
}

/// Removes the token from the secret store; removing an absent one succeeds.
pub fn delete_token() -> (r: Result<(), AppError>)
    ensures
        (r is Err && open_failure(r->Err_0@)) || exists|o: Result<(), StoreFailure>| deleted(o, r),
{
    let store = TokenStore::open()?;
    store.delete()
}

} // verus!
