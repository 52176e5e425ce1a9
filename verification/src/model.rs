//! The conceptual model of the platform store, and the laws of the facade.
//!
//! The store holds, within the application's namespace, a mapping from key
//! to secret value; each key identifies at most one value at a time. The
//! facade keeps no copy of this mapping, so the laws below are stated over
//! the model together with a *truthfulness* assumption on what the store
//! reported: a lookup that returns a value returns the stored one, and a
//! lookup that reports absence does so only when nothing is stored. An
//! operational failure of the store (permission denied, store unavailable)
//! makes no claim about the mapping, so each law that promises a definite
//! answer leaves the failing reports out of its hypotheses.

use vstd::prelude::*;

use crate::keychain::StoreError;
use crate::keychain::delete_result_spec;
use crate::keychain::get_failed;
use crate::keychain::get_result_spec;
use crate::keychain::mutation_failed;

verus! {

/// What the store holds at `key`: the stored value, if any.
pub open spec fn lookup(m: Map<Seq<char>, Seq<char>>, key: Seq<char>) -> Option<Seq<char>> {
    if m.contains_key(key) {
        Option::Some(m[key])
    } else {
        Option::None
    }
}

/// The store content after a successful write of `value` under `key`: the
/// mapping with that one association replaced.
pub open spec fn store_after_set(
    m: Map<Seq<char>, Seq<char>>,
    key: Seq<char>,
    value: Seq<char>,
) -> Map<Seq<char>, Seq<char>> {
    m.insert(key, value)
}

/// The store content after a successful removal of `key`: the mapping
/// without that association.
pub open spec fn store_after_delete(
    m: Map<Seq<char>, Seq<char>>,
    key: Seq<char>,
) -> Map<Seq<char>, Seq<char>> {
    m.remove(key)
}

/// The store reported the lookup at `key` truthfully for content `m`: a
/// returned value is exactly the stored one, and an absence report means
/// nothing is stored. A failure report makes no claim about `m`.
pub open spec fn truthful_get_report(
    m: Map<Seq<char>, Seq<char>>,
    key: Seq<char>,
    outcome: Result<String, StoreError>,
) -> bool {
    match outcome {
        Result::Ok(v) => lookup(m, key) == Option::Some(v@),
        Result::Err(e) => e.absent ==> lookup(m, key) is None,
    }
}

/// Law: a key never written reads back as the defined absence marker, not as
/// an error. Holds of every truthful lookup report that is not itself an
/// operational failure of the store.
pub proof fn lemma_unwritten_key_reads_absent(
    m: Map<Seq<char>, Seq<char>>,
    key: Seq<char>,
    outcome: Result<String, StoreError>,
)
    requires
        lookup(m, key) is None,
        truthful_get_report(m, key, outcome),
        !get_failed(outcome),
    ensures
        get_result_spec(outcome) == Result::<Option<String>, String>::Ok(Option::None),
{
}

/// Law: writing `value` under `key` and then looking `key` up returns
/// `value`. Holds of every truthful lookup report on the written store that
/// is not itself an operational failure.
pub proof fn lemma_set_then_get(
    m: Map<Seq<char>, Seq<char>>,
    key: Seq<char>,
    value: Seq<char>,
    outcome: Result<String, StoreError>,
)
    requires
        truthful_get_report(store_after_set(m, key, value), key, outcome),
        !get_failed(outcome),
    ensures
        get_result_spec(outcome) matches Result::Ok(found) && found matches Option::Some(v) && v@
            == value,
{
}

/// Law: writing `v1` and then `v2` under the same key and then looking the
/// key up returns `v2` — the second write overwrites the first. Holds of
/// every truthful lookup report on the twice-written store that is not
/// itself an operational failure.
pub proof fn lemma_overwrite(
    m: Map<Seq<char>, Seq<char>>,
    key: Seq<char>,
    v1: Seq<char>,
    v2: Seq<char>,
    outcome: Result<String, StoreError>,
)
    requires
        truthful_get_report(
            store_after_set(store_after_set(m, key, v1), key, v2),
            key,
            outcome,
        ),
        !get_failed(outcome),
    ensures
        get_result_spec(outcome) matches Result::Ok(found) && found matches Option::Some(v) && v@
            == v2,
{
}

/// Law: deleting is idempotent — in particular, deleting an absent key is a
/// success, not an error. Whatever the store reported of a removal, as long
/// as it was not an operational failure (on an absent key a truthful store
/// reports either success or defined absence), the facade reports success.
pub proof fn lemma_delete_absent_succeeds(outcome: Result<(), StoreError>)
    requires
        !mutation_failed(outcome),
    ensures
        delete_result_spec(outcome) == Result::<(), String>::Ok(()),
{
}

/// Law: after writing `value` under `key` and then deleting `key`, a lookup
/// of `key` returns the defined absence marker, not an error. Holds of every
/// truthful lookup report on the written-then-deleted store that is not
/// itself an operational failure.
pub proof fn lemma_delete_then_get(
    m: Map<Seq<char>, Seq<char>>,
    key: Seq<char>,
    value: Seq<char>,
    outcome: Result<String, StoreError>,
)
    requires
        truthful_get_report(
            store_after_delete(store_after_set(m, key, value), key),
            key,
            outcome,
        ),
        !get_failed(outcome),
    ensures
        get_result_spec(outcome) == Result::<Option<String>, String>::Ok(Option::None),
{
    assert(lookup(store_after_delete(store_after_set(m, key, value), key), key) is None);
}

} // verus!

