//! The authority's unified error taxonomy: every refusal reason a caller can
//! observe, one variant per distinct cause.

use vstd::prelude::*;

verus! {

/// A single abort reason surfaced to the caller; no error is ever caught and
/// retried inside the authority.
#[derive(Clone, Copy, Debug, PartialEq, Eq, Structural)]
pub enum Error {
    /// The operation selector was not recognized.
    UnknownApiCommand,
    /// The caller's current weight or role is insufficient for the mutation.
    PermissionDenied,
    /// A key removal or update would drop the total weight below a currently
    /// configured threshold.
    ThresholdViolation,
    /// The account's key set is already at capacity.
    MaxKeysLimit,
    /// The ledger reported an already-existing key during an add that should
    /// be unreachable; signals an internal inconsistency.
    DuplicateKey,
    /// The key-management threshold update was refused by the ledger's own
    /// category rule.
    KeyManagementThresholdError,
    /// The deployment threshold update was refused by the ledger's own
    /// category rule.
    DeploymentThresholdError,
    /// The requested threshold exceeds the current total key weight.
    InsufficientTotalWeight,
}

} // verus!
