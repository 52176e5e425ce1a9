//! Scenarios for the credential-store facade, run against the platform
//! store that the `keyring` crate selects here (the kernel key-retention
//! service), plus exact-value checks of the outcome interpretation.

use spectrus::keychain::interpret_delete;
use spectrus::keychain::interpret_get;
use spectrus::keychain::interpret_set;
use spectrus::keychain::keychain_delete;
use spectrus::keychain::keychain_get;
use spectrus::keychain::keychain_set;
use spectrus::keychain::service_name;
use spectrus::keychain::StoreError;

/// The kernel key-retention service scopes keys to the process's session
/// keyring. Join a fresh one owned by this test process, so the store is
/// both writable and empty at the start of the scenario.
fn fresh_store() {
    linux_keyutils::KeyRing::from_special_id(linux_keyutils::KeyRingIdentifier::Session, true)
        .unwrap();
}

#[test]
fn get_never_written_returns_absence_marker() {
    fresh_store();
    let r = keychain_get("spectrus-test-never-written".to_string());
    assert_eq!(r, Ok(None));
}

#[test]
fn set_then_get_returns_value() {
    fresh_store();
    let key = "spectrus-test-roundtrip".to_string();
    assert_eq!(keychain_set(key.clone(), "secret-one".to_string()), Ok(()));
    assert_eq!(keychain_get(key.clone()), Ok(Some("secret-one".to_string())));
    assert_eq!(keychain_delete(key), Ok(()));
}

#[test]
fn second_set_overwrites_first() {
    fresh_store();
    let key = "spectrus-test-overwrite".to_string();
    assert_eq!(keychain_set(key.clone(), "first".to_string()), Ok(()));
    assert_eq!(keychain_set(key.clone(), "second".to_string()), Ok(()));
    assert_eq!(keychain_get(key.clone()), Ok(Some("second".to_string())));
    assert_eq!(keychain_delete(key), Ok(()));
}

#[test]
fn delete_absent_key_is_success() {
    fresh_store();
    let r = keychain_delete("spectrus-test-absent".to_string());
    assert_eq!(r, Ok(()));
}

#[test]
fn delete_after_set_makes_get_absent() {
    fresh_store();
    let key = "spectrus-test-delete".to_string();
    assert_eq!(keychain_set(key.clone(), "ephemeral".to_string()), Ok(()));
    assert_eq!(keychain_delete(key.clone()), Ok(()));
    assert_eq!(keychain_get(key), Ok(None));
}

#[test]
fn set_empty_value_surfaces_store_error() {
    fresh_store();
    // The kernel key-retention store rejects empty secrets; the facade
    // surfaces the store's reason instead of inventing its own.
    let r = keychain_set("spectrus-test-empty".to_string(), String::new());
    assert!(r.is_err());
}

#[test]
fn facade_writes_under_fixed_namespace() {
    fresh_store();
    let key = "spectrus-test-namespace".to_string();
    assert_eq!(keychain_set(key.clone(), "ns-value".to_string()), Ok(()));
    let entry = keyring::Entry::new(service_name(), &key).unwrap();
    assert_eq!(entry.get_password().unwrap(), "ns-value");
    assert_eq!(keychain_delete(key), Ok(()));
}

#[test]
fn service_name_is_fixed_constant() {
    assert_eq!(service_name(), "com.spectrus.app");
}

#[test]
fn interpret_get_exact_values() {
    assert_eq!(
        interpret_get(Ok("found".to_string())),
        Ok(Some("found".to_string()))
    );
    assert_eq!(
        interpret_get(Err(StoreError {
            absent: true,
            message: "No matching entry found in secure storage".to_string(),
        })),
        Ok(None)
    );
    assert_eq!(
        interpret_get(Err(StoreError {
            absent: false,
            message: "store unavailable".to_string(),
        })),
        Err("store unavailable".to_string())
    );
}

#[test]
fn interpret_set_exact_values() {
    assert_eq!(interpret_set(Ok(())), Ok(()));
    assert_eq!(
        interpret_set(Err(StoreError {
            absent: false,
            message: "permission denied".to_string(),
        })),
        Err("permission denied".to_string())
    );
    assert_eq!(
        interpret_set(Err(StoreError {
            absent: true,
            message: "No matching entry found in secure storage".to_string(),
        })),
        Err("No matching entry found in secure storage".to_string())
    );
}

#[test]
fn interpret_delete_exact_values() {
    assert_eq!(interpret_delete(Ok(())), Ok(()));
    assert_eq!(
        interpret_delete(Err(StoreError {
            absent: true,
            message: "No matching entry found in secure storage".to_string(),
        })),
        Ok(())
    );
    assert_eq!(
        interpret_delete(Err(StoreError {
            absent: false,
            message: "store corrupted".to_string(),
        })),
        Err("store corrupted".to_string())
    );
}
