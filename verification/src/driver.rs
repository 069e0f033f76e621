//! Decisions for a host-held account ledger. When the authoritative key and
//! threshold state lives behind an external host rather than in an
//! [`crate::ledger::AccountLedger`] value, the host plumbing performs the
//! primitives and hands their results back; every decision — which primitive
//! to try first, when to fall back from an update to an add, and how each
//! refusal is translated — is made here.

use vstd::prelude::*;

use crate::error::Error;
use crate::ledger::{AddKeyFailure, RemoveKeyFailure, SetThresholdFailure, UpdateKeyFailure};

verus! {

/// The first ledger primitive to try for a requested key weight.
#[derive(Clone, Copy, Debug, PartialEq, Eq, Structural)]
pub enum KeyAction {
    /// Weight zero: remove the key.
    Remove,
    /// Positive weight: update the key in place.
    Update,
}

/// What to do after an update attempt: finish with a verdict, or fall back
/// to adding the key.
#[derive(Clone, Copy, Debug, PartialEq, Eq)]
pub enum AfterUpdate {
    Done(Result<(), Error>),
    TryAdd,
}

/// A requested weight of zero removes the key; any positive weight updates
/// it.
pub fn initial_key_action(weight: u8) -> (a: KeyAction)
    ensures
        a == (if weight == 0 {
            KeyAction::Remove
        } else {
            KeyAction::Update
        }),
{
    if weight == 0 {
        KeyAction::Remove
    } else {
        KeyAction::Update
    }
}

/// Verdict on an update attempt: success stands, a missing key falls back
/// to the add primitive, and the other refusals are translated.
pub fn after_update(r: Result<(), UpdateKeyFailure>) -> (a: AfterUpdate)
    ensures
        a == (match r {
            Ok(_) => AfterUpdate::Done(Ok(())),
            Err(UpdateKeyFailure::MissingKey) => AfterUpdate::TryAdd,
            Err(UpdateKeyFailure::PermissionDenied) => AfterUpdate::Done(
                Err(Error::PermissionDenied),
            ),
            Err(UpdateKeyFailure::ThresholdViolation) => AfterUpdate::Done(
                Err(Error::ThresholdViolation),
            ),
        }),
{
    match r {
        Ok(_) => AfterUpdate::Done(Ok(())),
        Err(UpdateKeyFailure::MissingKey) => AfterUpdate::TryAdd,
        Err(UpdateKeyFailure::PermissionDenied) => AfterUpdate::Done(Err(Error::PermissionDenied)),
        Err(UpdateKeyFailure::ThresholdViolation) => AfterUpdate::Done(
            Err(Error::ThresholdViolation),
        ),
    }
}

/// Verdict on an add attempt, with each refusal translated.
pub fn after_add(r: Result<(), AddKeyFailure>) -> (x: Result<(), Error>)
    ensures
        x == (match r {
            Ok(_) => Ok::<(), Error>(()),
            Err(AddKeyFailure::MaxKeysLimit) => Err(Error::MaxKeysLimit),
            Err(AddKeyFailure::DuplicateKey) => Err(Error::DuplicateKey),
            Err(AddKeyFailure::PermissionDenied) => Err(Error::PermissionDenied),
        }),
{
    match r {
        Ok(_) => Ok(()),
        Err(AddKeyFailure::MaxKeysLimit) => Err(Error::MaxKeysLimit),
        Err(AddKeyFailure::DuplicateKey) => Err(Error::DuplicateKey),
        Err(AddKeyFailure::PermissionDenied) => Err(Error::PermissionDenied),
    }
}

/// Verdict on a removal attempt: a key that was already absent counts as
/// success, the other refusals are translated.
pub fn after_remove_if_exists(r: Result<(), RemoveKeyFailure>) -> (x: Result<(), Error>)
    ensures
        x == (match r {
            Ok(_) => Ok::<(), Error>(()),
            Err(RemoveKeyFailure::MissingKey) => Ok(()),
            Err(RemoveKeyFailure::PermissionDenied) => Err(Error::PermissionDenied),
            Err(RemoveKeyFailure::ThresholdViolation) => Err(Error::ThresholdViolation),
        }),
{
    match r {
        Ok(_) => Ok(()),
        Err(RemoveKeyFailure::MissingKey) => Ok(()),
        Err(RemoveKeyFailure::PermissionDenied) => Err(Error::PermissionDenied),
        Err(RemoveKeyFailure::ThresholdViolation) => Err(Error::ThresholdViolation),
    }
}

/// Verdict on a threshold attempt, with each refusal translated.
pub fn after_set_threshold(r: Result<(), SetThresholdFailure>) -> (x: Result<(), Error>)
    ensures
        x == (match r {
            Ok(_) => Ok::<(), Error>(()),
            Err(SetThresholdFailure::KeyManagementThreshold) => Err(
                Error::KeyManagementThresholdError,
            ),
            Err(SetThresholdFailure::DeploymentThreshold) => Err(Error::DeploymentThresholdError),
            Err(SetThresholdFailure::PermissionDeniedError) => Err(Error::PermissionDenied),
            Err(SetThresholdFailure::InsufficientTotalWeight) => Err(
                Error::InsufficientTotalWeight,
            ),
        }),
{
    match r {
        Ok(_) => Ok(()),
        Err(SetThresholdFailure::KeyManagementThreshold) => Err(Error::KeyManagementThresholdError),
        Err(SetThresholdFailure::DeploymentThreshold) => Err(Error::DeploymentThresholdError),
        Err(SetThresholdFailure::PermissionDeniedError) => Err(Error::PermissionDenied),
        Err(SetThresholdFailure::InsufficientTotalWeight) => Err(Error::InsufficientTotalWeight),
    }
}

} // verus!
