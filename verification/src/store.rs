//! The trusted boundary to the platform credential store (the `keyring`
//! crate), plus the small verified compositions that the facade calls.
//!
//! Every operation is a live call into the store: nothing is cached. The
//! store's answers depend on state outside this process (what the platform
//! holds on disk or in the kernel, access control, user prompts), so the
//! trusted items below promise nothing about which outcome comes back; the
//! verified code in `keychain` says exactly what the facade returns for each
//! possible outcome.

use vstd::prelude::*;

use crate::keychain::StoreError;
use crate::keychain::service_name;

verus! {

#[verifier::external_type_specification]
#[verifier::external_body]
pub struct ExEntry(keyring::Entry);

#[verifier::external_type_specification]
#[verifier::external_body]
pub struct ExKeyringError(keyring::Error);

/// Relies on `keyring::Entry::new`: builds a handle for the (service, user)
/// pair in the platform's default credential store, or reports why the
/// platform rejected the pair. Which outcome comes back depends on the
/// platform, so nothing is promised of it.
#[verifier::external_body]
fn entry_new(service: &str, user: &str) -> Result<keyring::Entry, keyring::Error> {
    keyring::Entry::new(service, user)
}

/// Relies on `keyring::Entry::set_password`: writes (or overwrites) the
/// secret held by the platform store for this entry. The outcome depends on
/// the platform store, so nothing is promised of it.
#[verifier::external_body]
fn entry_set_password(entry: &keyring::Entry, value: &str) -> Result<(), keyring::Error> {
    entry.set_password(value)
}

/// Relies on `keyring::Entry::get_password`: reads the secret held by the
/// platform store for this entry; the store reports `NoEntry` when there is
/// none. The outcome depends on the platform store, so nothing is promised
/// of it.
#[verifier::external_body]
fn entry_get_password(entry: &keyring::Entry) -> Result<String, keyring::Error> {
    entry.get_password()
}

/// Relies on `keyring::Entry::delete_credential`: removes the secret held by
/// the platform store for this entry; the store reports `NoEntry` when there
/// was none. The outcome depends on the platform store, so nothing is
/// promised of it.
#[verifier::external_body]
fn entry_delete_credential(entry: &keyring::Entry) -> Result<(), keyring::Error> {
    entry.delete_credential()
}

/// Relies on the `keyring::Error::NoEntry` variant: true exactly when the
/// store reported that no entry exists for the key (the defined-absence
/// outcome), false for every other variant.
#[verifier::external_body]
fn error_is_absent(e: &keyring::Error) -> bool {
    matches!(e, keyring::Error::NoEntry)
}

/// Relies on the `Display` implementation of `keyring::Error` (through
/// `ToString::to_string`): the store's human-readable description of the
/// error.
#[verifier::external_body]
fn error_text(e: &keyring::Error) -> String {
    e.to_string()
}

/// Translate the store's error into the facade's picture of it: whether the
/// entry was absent, plus the store's own message.
fn classify_error(e: keyring::Error) -> StoreError {
    let absent = error_is_absent(&e);
    let message = error_text(&e);
    StoreError { absent, message }
}

/// One live lookup of the secret under (namespace, key).
pub(crate) fn fetch_secret(key: &str) -> Result<String, StoreError> {
    match entry_new(service_name(), key) {
        Ok(entry) => match entry_get_password(&entry) {
            Ok(v) => Ok(v),
            Err(e) => Err(classify_error(e)),
        },
        Err(e) => Err(classify_error(e)),
    }
}

/// One live write of `value` under (namespace, key).
pub(crate) fn write_secret(key: &str, value: &str) -> Result<(), StoreError> {
    match entry_new(service_name(), key) {
        Ok(entry) => match entry_set_password(&entry, value) {
            Ok(u) => Ok(u),
            Err(e) => Err(classify_error(e)),
        },
        Err(e) => Err(classify_error(e)),
    }
}

/// One live removal of the entry under (namespace, key).
pub(crate) fn remove_secret(key: &str) -> Result<(), StoreError> {
    match entry_new(service_name(), key) {
        Ok(entry) => match entry_delete_credential(&entry) {
            Ok(u) => Ok(u),
            Err(e) => Err(classify_error(e)),
        },
        Err(e) => Err(classify_error(e)),
    }
}

} // verus!
