//! The authority's governing laws, proved once and for all over the step
//! functions that the executable functions are verified to realize.

use vstd::prelude::*;

use crate::error::Error;
use crate::ledger::ActionType;
use crate::manager::{step_apply_pairs, step_set_all, step_set_key_weight, step_set_threshold};
use crate::model::{first_index_of, lemma_first_index_of, unique_keys, KeyWeight, LedgerModel};

verus! {

/// Setting a key's weight to zero is an idempotent delete: for an authorized
/// caller it succeeds whether or not the key is present, provided removing
/// the key would not drop the total weight below a configured threshold,
/// and afterwards the key is absent while thresholds and capacity are
/// untouched.
pub proof fn lemma_zero_weight_removes_idempotently(l: LedgerModel, k: Seq<u8>)
    requires
        l.wf(),
        l.authorized,
        l.contains_key(k) ==> l.total() - l.weight_of(k) >= l.deployment_threshold && l.total()
            - l.weight_of(k) >= l.key_management_threshold,
    ensures
        step_set_key_weight(l, k, 0) is Ok,
        !step_set_key_weight(l, k, 0)->Ok_0.contains_key(k),
        step_set_key_weight(l, k, 0)->Ok_0.deployment_threshold == l.deployment_threshold,
        step_set_key_weight(l, k, 0)->Ok_0.key_management_threshold == l.key_management_threshold,
        step_set_key_weight(l, k, 0)->Ok_0.authorized == l.authorized,
        step_set_key_weight(l, k, 0)->Ok_0.max_keys == l.max_keys,
{
    lemma_first_index_of(l.keys, k);
    if l.contains_key(k) {
        let fi = first_index_of(l.keys, k);
        let m = step_set_key_weight(l, k, 0)->Ok_0;
        assert(m.keys == l.keys.remove(fi));
        lemma_first_index_of(m.keys, k);
        if first_index_of(m.keys, k) >= 0 {
            let j = first_index_of(m.keys, k);
            assert(m.keys[j] == l.keys[
                if j < fi {
                    j
                } else {
                    j + 1
                }
            ]);
            assert(false);
        }
    }
}

/// An absent key with a positive weight is added: the add succeeds exactly
/// when the caller is authorized and the key set is below capacity, and the
/// two refusals are permission denial and the capacity limit.
pub proof fn lemma_absent_key_added(l: LedgerModel, k: Seq<u8>, w: u8)
    requires
        l.wf(),
        !l.contains_key(k),
        w > 0,
    ensures
        !l.authorized ==> step_set_key_weight(l, k, w) == Err::<LedgerModel, Error>(
            Error::PermissionDenied,
        ),
        l.authorized && l.keys.len() >= l.max_keys ==> step_set_key_weight(l, k, w) == Err::<
            LedgerModel,
            Error,
        >(Error::MaxKeysLimit),
        l.authorized && l.keys.len() < l.max_keys ==> step_set_key_weight(l, k, w) == Ok::<
            LedgerModel,
            Error,
        >(LedgerModel { keys: l.keys.push(KeyWeight { key: k, weight: w }), ..l }),
        l.authorized && l.keys.len() < l.max_keys ==> {
            let m = step_set_key_weight(l, k, w)->Ok_0;
            &&& m.contains_key(k)
            &&& m.weight_of(k) == w
            &&& m.keys.len() == l.keys.len() + 1
        },
{
    lemma_first_index_of(l.keys, k);
    if l.authorized && l.keys.len() < l.max_keys {
        let kw = KeyWeight { key: k, weight: w };
        let m = step_set_key_weight(l, k, w)->Ok_0;
        assert(m.keys == l.keys.push(kw));
        assert(m.keys[l.keys.len() as int] == kw);
        lemma_first_index_of(m.keys, k);
        let fi = first_index_of(m.keys, k);
        assert(fi >= 0);
        if fi < l.keys.len() {
            assert(m.keys[fi] == l.keys[fi]);
            assert(false);
        }
        assert(fi == l.keys.len());
    }
}

/// A present key with a positive weight is updated in place: the add path is
/// never taken (so neither the capacity nor the duplicate refusal can
/// occur), and on success the key count is unchanged and the key carries the
/// new weight.
pub proof fn lemma_present_key_updated_in_place(l: LedgerModel, k: Seq<u8>, w: u8)
    requires
        l.wf(),
        l.contains_key(k),
        w > 0,
    ensures
        step_set_key_weight(l, k, w) != Err::<LedgerModel, Error>(Error::MaxKeysLimit),
        step_set_key_weight(l, k, w) != Err::<LedgerModel, Error>(Error::DuplicateKey),
        !l.authorized ==> step_set_key_weight(l, k, w) == Err::<LedgerModel, Error>(
            Error::PermissionDenied,
        ),
        l.authorized && (l.total() - l.weight_of(k) + w < l.deployment_threshold || l.total()
            - l.weight_of(k) + w < l.key_management_threshold) ==> step_set_key_weight(l, k, w)
            == Err::<LedgerModel, Error>(Error::ThresholdViolation),
        l.authorized && l.total() - l.weight_of(k) + w >= l.deployment_threshold && l.total()
            - l.weight_of(k) + w >= l.key_management_threshold ==> {
            let m = step_set_key_weight(l, k, w)->Ok_0;
            &&& step_set_key_weight(l, k, w) is Ok
            &&& m.keys.len() == l.keys.len()
            &&& m.contains_key(k)
            &&& m.weight_of(k) == w
        },
{
    lemma_first_index_of(l.keys, k);
    let fi = first_index_of(l.keys, k);
    if l.authorized && l.total() - l.weight_of(k) + w >= l.deployment_threshold && l.total()
        - l.weight_of(k) + w >= l.key_management_threshold {
        let kw = KeyWeight { key: k, weight: w };
        let m = step_set_key_weight(l, k, w)->Ok_0;
        assert(m.keys == l.keys.update(fi, kw));
        assert(m.keys[fi] == kw);
        lemma_first_index_of(m.keys, k);
        let fj = first_index_of(m.keys, k);
        assert(fj >= 0);
        if fj < fi {
            assert(m.keys[fj] == l.keys[fj]);
            assert(false);
        }
        assert(fj == fi);
    }
}

/// The duplicate-key refusal is unreachable through the authority: the add
/// primitive is only tried after the ledger has reported the key absent, so
/// a duplicate report would signal an internal inconsistency of the ledger,
/// never a normal outcome.
pub proof fn lemma_duplicate_key_is_unreachable(l: LedgerModel, k: Seq<u8>, w: u8)
    requires
        l.wf(),
    ensures
        step_set_key_weight(l, k, w) != Err::<LedgerModel, Error>(Error::DuplicateKey),
{
}

/// For an authorized caller, a threshold set above the current total signing
/// weight is always refused as insufficient total weight, whichever category
/// the threshold belongs to.
pub proof fn lemma_threshold_above_total_weight_refused(l: LedgerModel, action: ActionType, w: u8)
    requires
        l.wf(),
        l.authorized,
        w > l.total(),
    ensures
        step_set_threshold(l, action, w) == Err::<LedgerModel, Error>(
            Error::InsufficientTotalWeight,
        ),
{
}

/// Applying key/weight pairs never changes the thresholds, the
/// authorization outcome, or the capacity.
pub proof fn lemma_apply_pairs_keeps_configuration(l: LedgerModel, ks: Seq<Seq<u8>>, ws: Seq<u8>)
    requires
        step_apply_pairs(l, ks, ws) is Ok,
    ensures
        ({
            let m = step_apply_pairs(l, ks, ws)->Ok_0;
            &&& m.deployment_threshold == l.deployment_threshold
            &&& m.key_management_threshold == l.key_management_threshold
            &&& m.authorized == l.authorized
            &&& m.max_keys == l.max_keys
        }),
    decreases ks.len(),
{
    if ks.len() == 0 || ws.len() == 0 {
    } else {
        let after = step_set_key_weight(l, ks[0], ws[0]);
        if after is Ok {
            lemma_apply_pairs_keeps_configuration(after->Ok_0, ks.drop_first(), ws.drop_first());
        }
    }
}

/// The batch validates thresholds against the key set it has just applied:
/// when the key mutations succeed but leave a total weight smaller than the
/// requested key-management threshold, the whole batch is refused for
/// insufficient total weight — even when the same threshold would have
/// passed against the total weight before the batch.
pub proof fn lemma_set_all_checks_thresholds_after_key_changes(
    l: LedgerModel,
    deployment_threshold: u8,
    key_management_threshold: u8,
    ks: Seq<Seq<u8>>,
    ws: Seq<u8>,
)
    requires
        l.wf(),
        l.authorized,
        key_management_threshold <= l.total(),
        step_apply_pairs(l, ks, ws) is Ok,
        key_management_threshold > step_apply_pairs(l, ks, ws)->Ok_0.total(),
    ensures
        step_set_all(l, deployment_threshold, key_management_threshold, ks, ws) == Err::<
            LedgerModel,
            Error,
        >(Error::InsufficientTotalWeight),
{
    lemma_apply_pairs_keeps_configuration(l, ks, ws);
}

} // verus!
