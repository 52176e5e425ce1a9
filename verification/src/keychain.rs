//! The credential-store facade: three operations on a single
//! (namespace, key) pair, where the namespace is a fixed constant for the
//! whole application.
//!
//! Every operation is a live call into the platform store; no local copy of
//! the mapping is kept. The one piece of design logic in this layer is the
//! separation of "defined absence" (the entry does not exist: a normal
//! outcome) from "operational failure" (anything else: surfaced verbatim as a
//! human-readable reason). The functions `interpret_get`, `interpret_set` and
//! `interpret_delete` carry that logic, each verified against the exact
//! description beside it; the commands `keychain_get`, `keychain_set` and
//! `keychain_delete` apply it to what the store reported.

use vstd::prelude::*;

use crate::store::fetch_secret;
use crate::store::remove_secret;
use crate::store::write_secret;

verus! {

/// The fixed namespace under which all of the application's secrets live in
/// the platform store.
pub open spec fn service_namespace() -> Seq<char> {
    "com.spectrus.app"@
}

/// The namespace constant as an executable string.
pub fn service_name() -> (r: &'static str)
    ensures
        r@ == service_namespace(),
{
    "com.spectrus.app"
}

/// How the platform store reported a failed operation: either the entry was
/// absent (a normal, defined outcome) or the store itself failed.
pub struct StoreError {
    /// True exactly when the store reported that no entry exists for the key.
    pub absent: bool,
    /// The store's own human-readable description of the outcome.
    pub message: String,
}

/// A lookup report that is a real operational failure: an error other than
/// defined absence.
pub open spec fn get_failed(outcome: Result<String, StoreError>) -> bool {
    match outcome {
        Result::Ok(_) => false,
        Result::Err(e) => !e.absent,
    }
}

/// A write or removal report that is a real operational failure: an error
/// other than defined absence.
pub open spec fn mutation_failed(outcome: Result<(), StoreError>) -> bool {
    match outcome {
        Result::Ok(_) => false,
        Result::Err(e) => !e.absent,
    }
}

/// What `keychain_get` returns for each possible lookup report: a found value
/// is passed through as `Some`, a missing entry becomes the absence marker
/// `None` (not an error), and any other store failure is surfaced verbatim.
pub open spec fn get_result_spec(outcome: Result<String, StoreError>) -> Result<
    Option<String>,
    String,
> {
    match outcome {
        Result::Ok(v) => Result::Ok(Option::Some(v)),
        Result::Err(e) => if e.absent {
            Result::Ok(Option::None)
        } else {
            Result::Err(e.message)
        },
    }
}

/// What `keychain_set` returns for each possible write report: success is
/// passed through and every store error, absence included, is surfaced
/// verbatim.
pub open spec fn set_result_spec(outcome: Result<(), StoreError>) -> Result<(), String> {
    match outcome {
        Result::Ok(u) => Result::Ok(u),
        Result::Err(e) => Result::Err(e.message),
    }
}

/// What `keychain_delete` returns for each possible removal report: removing
/// an entry that was already absent counts as success (deletion is
/// idempotent), and any other store failure is surfaced verbatim.
pub open spec fn delete_result_spec(outcome: Result<(), StoreError>) -> Result<(), String> {
    match outcome {
        Result::Ok(u) => Result::Ok(u),
        Result::Err(e) => if e.absent {
            Result::Ok(())
        } else {
            Result::Err(e.message)
        },
    }
}

/// Turn the raw report of a password lookup into the facade's result,
/// exactly as `get_result_spec` describes: absence is the marker `None`,
/// never an error.
pub fn interpret_get(outcome: Result<String, StoreError>) -> (r: Result<Option<String>, String>)
    ensures
        r == get_result_spec(outcome),
{
    match outcome {
        Ok(v) => Ok(Some(v)),
        Err(e) => if e.absent {
            Ok(None)
        } else {
            Err(e.message)
        },
    }
}

/// Turn the raw report of a password write into the facade's result, exactly
/// as `set_result_spec` describes: every error is surfaced.
pub fn interpret_set(outcome: Result<(), StoreError>) -> (r: Result<(), String>)
    ensures
        r == set_result_spec(outcome),
{
    match outcome {
        Ok(u) => Ok(u),
        Err(e) => Err(e.message),
    }
}

/// Turn the raw report of an entry removal into the facade's result, exactly
/// as `delete_result_spec` describes: an already-absent entry is a success.
pub fn interpret_delete(outcome: Result<(), StoreError>) -> (r: Result<(), String>)
    ensures
        r == delete_result_spec(outcome),
{
    match outcome {
        Ok(u) => Ok(u),
        Err(e) => if e.absent {
            Ok(())
        } else {
            Err(e.message)
        },
    }
}

/// Store `value` under `key` in the platform credential store, overwriting
/// any earlier value. The store's report decides the outcome; whatever it
/// was, the result is exactly `set_result_spec` of it, so any store error is
/// surfaced verbatim and nothing else is changed by this layer.
pub fn keychain_set(key: String, value: String) -> Result<(), String> {
    let outcome = write_secret(key.as_str(), value.as_str());
    interpret_set(outcome)
}

/// Retrieve the value stored under `key`, or `None` if no entry exists. The
/// store's report decides the outcome; whatever it was, the result is
/// exactly `get_result_spec` of it, so defined absence comes back as the
/// marker `None`, never as an error.
pub fn keychain_get(key: String) -> Result<Option<String>, String> {
    let outcome = fetch_secret(key.as_str());
    interpret_get(outcome)
}

/// Delete the entry stored under `key`. Idempotent: the store reporting an
/// already-absent entry counts as success. Whatever the store reported, the
/// result is exactly `delete_result_spec` of it.
pub fn keychain_delete(key: String) -> Result<(), String> {
    let outcome = remove_secret(key.as_str());
    interpret_delete(outcome)
}

} // verus!
