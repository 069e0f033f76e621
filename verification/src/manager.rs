//! The mutation engine: decides whether a requested key or threshold change
//! is legal, calls the matching ledger primitive, and translates the ledger's
//! refusal reasons into the authority's error taxonomy. The batch operation
//! composes the single mutations into one all-or-nothing unit.

use vstd::prelude::*;

use crate::error::Error;
use crate::ledger::{
    step_add_key, step_remove_key, step_set_action_threshold, step_update_key, AccountKey,
    AccountLedger, ActionType, AddKeyFailure, RemoveKeyFailure, SetThresholdFailure,
    UpdateKeyFailure,
};
use crate::model::LedgerModel;

verus! {

/// What `add_key` does: an add, with the ledger's refusal translated.
pub open spec fn step_add_key_checked(l: LedgerModel, k: Seq<u8>, w: u8) -> Result<
    LedgerModel,
    Error,
> {
    match step_add_key(l, k, w) {
        Ok(m) => Ok(m),
        Err(AddKeyFailure::MaxKeysLimit) => Err(Error::MaxKeysLimit),
        Err(AddKeyFailure::DuplicateKey) => Err(Error::DuplicateKey),
        Err(AddKeyFailure::PermissionDenied) => Err(Error::PermissionDenied),
    }
}

/// What `add_or_update_key` does: an update in place, falling back to an add
/// when the key is absent.
pub open spec fn step_add_or_update_key(l: LedgerModel, k: Seq<u8>, w: u8) -> Result<
    LedgerModel,
    Error,
> {
    match step_update_key(l, k, w) {
        Ok(m) => Ok(m),
        Err(UpdateKeyFailure::MissingKey) => step_add_key_checked(l, k, w),
        Err(UpdateKeyFailure::PermissionDenied) => Err(Error::PermissionDenied),
        Err(UpdateKeyFailure::ThresholdViolation) => Err(Error::ThresholdViolation),
    }
}

/// What `remove_key_if_exists` does: a removal, where a missing key counts
/// as success.
pub open spec fn step_remove_key_if_exists(l: LedgerModel, k: Seq<u8>) -> Result<
    LedgerModel,
    Error,
> {
    match step_remove_key(l, k) {
        Ok(m) => Ok(m),
        Err(RemoveKeyFailure::MissingKey) => Ok(l),
        Err(RemoveKeyFailure::PermissionDenied) => Err(Error::PermissionDenied),
        Err(RemoveKeyFailure::ThresholdViolation) => Err(Error::ThresholdViolation),
    }
}

/// What `set_key_weight` does: weight zero removes the key, a positive
/// weight updates it or adds it.
pub open spec fn step_set_key_weight(l: LedgerModel, k: Seq<u8>, w: u8) -> Result<
    LedgerModel,
    Error,
> {
    if w == 0 {
        step_remove_key_if_exists(l, k)
    } else {
        step_add_or_update_key(l, k, w)
    }
}

/// What `set_threshold` does: the ledger's threshold primitive, with its
/// refusal translated.
pub open spec fn step_set_threshold(l: LedgerModel, action: ActionType, w: u8) -> Result<
    LedgerModel,
    Error,
> {
    match step_set_action_threshold(l, action, w) {
        Ok(m) => Ok(m),
        Err(SetThresholdFailure::KeyManagementThreshold) => Err(Error::KeyManagementThresholdError),
        Err(SetThresholdFailure::DeploymentThreshold) => Err(Error::DeploymentThresholdError),
        Err(SetThresholdFailure::PermissionDeniedError) => Err(Error::PermissionDenied),
        Err(SetThresholdFailure::InsufficientTotalWeight) => Err(Error::InsufficientTotalWeight),
    }
}

/// The views of a list of keys.
pub open spec fn keys_view(accounts: Seq<AccountKey>) -> Seq<Seq<u8>> {
    accounts.map(|i: int, k: AccountKey| k@)
}

/// What the key part of `set_all` does: each key/weight pair applied in
/// order, stopping at the first refusal; pairing stops with the shorter
/// list.
pub open spec fn step_apply_pairs(l: LedgerModel, ks: Seq<Seq<u8>>, ws: Seq<u8>) -> Result<
    LedgerModel,
    Error,
>
    decreases ks.len(),
{
    if ks.len() == 0 || ws.len() == 0 {
        Ok(l)
    } else {
        match step_set_key_weight(l, ks[0], ws[0]) {
            Ok(m) => step_apply_pairs(m, ks.drop_first(), ws.drop_first()),
            Err(e) => Err(e),
        }
    }
}

/// What `set_all` does: all key/weight pairs, then the key-management
/// threshold, then the deployment threshold; the first refusal aborts the
/// whole unit.
pub open spec fn step_set_all(
    l: LedgerModel,
    deployment_threshold: u8,
    key_management_threshold: u8,
    ks: Seq<Seq<u8>>,
    ws: Seq<u8>,
) -> Result<LedgerModel, Error> {
    match step_apply_pairs(l, ks, ws) {
        Ok(m) => match step_set_threshold(m, ActionType::KeyManagement, key_management_threshold) {
            Ok(m2) => step_set_threshold(m2, ActionType::Deployment, deployment_threshold),
            Err(e) => Err(e),
        },
        Err(e) => Err(e),
    }
}

/// Add a new key with the given weight, translating the ledger's refusals.
pub fn add_key(ledger: &mut AccountLedger, key: &AccountKey, weight: u8) -> (r: Result<(), Error>)
    requires
        old(ledger)@.wf(),
    ensures
        final(ledger)@.wf(),
        match r {
            Ok(_) => step_add_key_checked(old(ledger)@, key@, weight) == Ok::<LedgerModel, Error>(
                final(ledger)@,
            ),
            Err(e) => step_add_key_checked(old(ledger)@, key@, weight) == Err::<LedgerModel, Error>(
                e,
            ) && final(ledger)@ == old(ledger)@,
        },
{
    match ledger.add_associated_key(key, weight) {
        Ok(_) => Ok(()),
        Err(AddKeyFailure::MaxKeysLimit) => Err(Error::MaxKeysLimit),
        Err(AddKeyFailure::DuplicateKey) => Err(Error::DuplicateKey),
        Err(AddKeyFailure::PermissionDenied) => Err(Error::PermissionDenied),
    }
}

/// Set a key's weight by updating it in place, falling back to adding it
/// when the ledger reports it absent.
pub fn add_or_update_key(ledger: &mut AccountLedger, key: &AccountKey, weight: u8) -> (r: Result<
    (),
    Error,
>)
    requires
        old(ledger)@.wf(),
    ensures
        final(ledger)@.wf(),
        match r {
            Ok(_) => step_add_or_update_key(old(ledger)@, key@, weight) == Ok::<LedgerModel, Error>(
                final(ledger)@,
            ),
            Err(e) => step_add_or_update_key(old(ledger)@, key@, weight) == Err::<
                LedgerModel,
                Error,
            >(e) && final(ledger)@ == old(ledger)@,
        },
{
    match ledger.update_associated_key(key, weight) {
        Ok(_) => Ok(()),
        Err(UpdateKeyFailure::MissingKey) => add_key(ledger, key, weight),
        Err(UpdateKeyFailure::PermissionDenied) => Err(Error::PermissionDenied),
        Err(UpdateKeyFailure::ThresholdViolation) => Err(Error::ThresholdViolation),
    }
}

/// Remove a key, treating an already-absent key as success.
pub fn remove_key_if_exists(ledger: &mut AccountLedger, key: &AccountKey) -> (r: Result<(), Error>)
    requires
        old(ledger)@.wf(),
    ensures
        final(ledger)@.wf(),
        match r {
            Ok(_) => step_remove_key_if_exists(old(ledger)@, key@) == Ok::<LedgerModel, Error>(
                final(ledger)@,
            ),
            Err(e) => step_remove_key_if_exists(old(ledger)@, key@) == Err::<LedgerModel, Error>(e)
                && final(ledger)@ == old(ledger)@,
        },
{
    match ledger.remove_associated_key(key) {
        Ok(_) => Ok(()),
        Err(RemoveKeyFailure::MissingKey) => Ok(()),
        Err(RemoveKeyFailure::PermissionDenied) => Err(Error::PermissionDenied),
        Err(RemoveKeyFailure::ThresholdViolation) => Err(Error::ThresholdViolation),
    }
}

/// Set a key's weight: weight zero removes the key (idempotently), a
/// positive weight updates it in place or adds it.
pub fn set_key_weight(ledger: &mut AccountLedger, key: &AccountKey, weight: u8) -> (r: Result<
    (),
    Error,
>)
    requires
        old(ledger)@.wf(),
    ensures
        final(ledger)@.wf(),
        match r {
            Ok(_) => step_set_key_weight(old(ledger)@, key@, weight) == Ok::<LedgerModel, Error>(
                final(ledger)@,
            ),
            Err(e) => step_set_key_weight(old(ledger)@, key@, weight) == Err::<LedgerModel, Error>(
                e,
            ) && final(ledger)@ == old(ledger)@,
        },
{
    if weight == 0 {
        remove_key_if_exists(ledger, key)
    } else {
        add_or_update_key(ledger, key, weight)
    }
}

/// Set one action threshold, translating the ledger's refusals.
pub fn set_threshold(ledger: &mut AccountLedger, action: ActionType, weight: u8) -> (r: Result<
    (),
    Error,
>)
    requires
        old(ledger)@.wf(),
    ensures
        final(ledger)@.wf(),
        match r {
            Ok(_) => step_set_threshold(old(ledger)@, action, weight) == Ok::<LedgerModel, Error>(
                final(ledger)@,
            ),
            Err(e) => step_set_threshold(old(ledger)@, action, weight) == Err::<LedgerModel, Error>(
                e,
            ) && final(ledger)@ == old(ledger)@,
        },
{
    match ledger.set_action_threshold(action, weight) {
        Ok(_) => Ok(()),
        Err(SetThresholdFailure::KeyManagementThreshold) => Err(Error::KeyManagementThresholdError),
        Err(SetThresholdFailure::DeploymentThreshold) => Err(Error::DeploymentThresholdError),
        Err(SetThresholdFailure::PermissionDeniedError) => Err(Error::PermissionDenied),
        Err(SetThresholdFailure::InsufficientTotalWeight) => Err(Error::InsufficientTotalWeight),
    }
}

/// Replace the whole key set and both thresholds as one unit: every
/// key/weight pair in the caller's order, then the key-management threshold,
/// then the deployment threshold. The first refusal aborts the unit and the
/// account state is exactly what it was before the call.
#[verifier::loop_isolation(false)]
pub fn set_all(
    ledger: &mut AccountLedger,
    deployment_threshold: u8,
    key_management_threshold: u8,
    accounts: &Vec<AccountKey>,
    weights: &Vec<u8>,
) -> (r: Result<(), Error>)
    requires
        old(ledger)@.wf(),
    ensures
        final(ledger)@.wf(),
        match r {
            Ok(_) => step_set_all(
                old(ledger)@,
                deployment_threshold,
                key_management_threshold,
                keys_view(accounts@),
                weights@,
            ) == Ok::<LedgerModel, Error>(final(ledger)@),
            Err(e) => step_set_all(
                old(ledger)@,
                deployment_threshold,
                key_management_threshold,
                keys_view(accounts@),
                weights@,
            ) == Err::<LedgerModel, Error>(e) && final(ledger)@ == old(ledger)@,
        },
{
    let ghost ks = keys_view(accounts@);
    let ghost ws = weights@;
    let saved = ledger.duplicate();
    let n = if accounts.len() < weights.len() {
        accounts.len()
    } else {
        weights.len()
    };
    let mut i: usize = 0;
    proof {
        assert(ks.skip(0) =~= ks);
        assert(ws.skip(0) =~= ws);
    }
    while i < n
        invariant
            i <= n,
            ledger@.wf(),
            step_apply_pairs(old(ledger)@, ks, ws) == step_apply_pairs(
                ledger@,
                ks.skip(i as int),
                ws.skip(i as int),
            ),
        decreases n - i,
    {
        let ghost prev = ledger@;
        match set_key_weight(ledger, &accounts[i], weights[i]) {
            Ok(_) => {
                proof {
                    assert(ks.skip(i as int)[0] == ks[i as int]);
                    assert(ws.skip(i as int)[0] == ws[i as int]);
                    assert(ks.skip(i as int).drop_first() =~= ks.skip(i + 1));
                    assert(ws.skip(i as int).drop_first() =~= ws.skip(i + 1));
                }
            },
            Err(e) => {
                proof {
                    assert(ks.skip(i as int)[0] == ks[i as int]);
                    assert(ws.skip(i as int)[0] == ws[i as int]);
                }
                *ledger = saved;
                return Err(e);
            },
        }
        i = i + 1;
    }
    proof {
        assert(ks.skip(n as int).len() == 0 || ws.skip(n as int).len() == 0);
        assert(step_apply_pairs(old(ledger)@, ks, ws) == Ok::<LedgerModel, Error>(ledger@));
    }
    let ghost keyed = ledger@;
    match set_threshold(ledger, ActionType::KeyManagement, key_management_threshold) {
        Ok(_) => {},
        Err(e) => {
            *ledger = saved;
            return Err(e);
        },
    }
    match set_threshold(ledger, ActionType::Deployment, deployment_threshold) {
        Ok(_) => Ok(()),
        Err(e) => {
            *ledger = saved;
            Err(e)
        },
    }
}

} // verus!
