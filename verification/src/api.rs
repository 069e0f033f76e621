//! The command surface: the closed set of operations the authority performs,
//! the selector parsing that picks one, and the dispatcher that runs a
//! command against the account ledger.

use vstd::prelude::*;

use crate::error::Error;
use crate::ledger::{AccountKey, AccountLedger, ActionType};
use crate::manager::{
    keys_view, set_all, set_key_weight, set_threshold, step_set_all, step_set_key_weight,
    step_set_threshold,
};
use crate::model::LedgerModel;

verus! {

/// The selector string for each recognized operation, as the caller spells
/// it.
pub const SET_KEY_WEIGHT: &'static str = "set_key_weight";

pub const SET_DEPLOYMENT_THRESHOLD: &'static str = "set_deployment_threshold";

pub const SET_KEY_MANAGEMENT_THRESHOLD: &'static str = "set_key_management_threshold";

pub const SET_ALL: &'static str = "set_all";

pub const DELEGATE: &'static str = "delegate";

pub const UNDELEGATE: &'static str = "undelegate";

/// A stake movement to forward verbatim to the external staking ledger:
/// the delegating identity, the validator identity, and the amount, each as
/// the raw bytes the host serializes them to (the amount little-endian).
pub struct DelegationRequest {
    pub delegator: Vec<u8>,
    pub validator: Vec<u8>,
    pub amount: Vec<u8>,
}

/// Model of a [`DelegationRequest`].
#[verifier::ext_equal]
pub ghost struct DelegationModel {
    pub delegator: Seq<u8>,
    pub validator: Seq<u8>,
    pub amount: Seq<u8>,
}

impl View for DelegationRequest {
    type V = DelegationModel;

    open spec fn view(&self) -> DelegationModel {
        DelegationModel {
            delegator: self.delegator@,
            validator: self.validator@,
            amount: self.amount@,
        }
    }
}

/// Which staking-ledger entry point a delegation request is addressed to.
#[derive(Clone, Copy, Debug, PartialEq, Eq, Structural)]
pub enum AuctionMethod {
    Delegate,
    Undelegate,
}

/// An invocation of the external staking ledger that the host must perform
/// on the authority's behalf: the entry point and its named arguments.
pub struct AuctionCall {
    pub method: AuctionMethod,
    pub request: DelegationRequest,
}

/// Model of an [`AuctionCall`].
#[verifier::ext_equal]
pub ghost struct AuctionCallModel {
    pub method: AuctionMethod,
    pub request: DelegationModel,
}

impl View for AuctionCall {
    type V = AuctionCallModel;

    open spec fn view(&self) -> AuctionCallModel {
        AuctionCallModel { method: self.method, request: self.request@ }
    }
}

/// What a successfully executed command asks of the host: nothing further,
/// or one staking-ledger call.
pub enum Outcome {
    /// The account ledger holds every effect already.
    Completed,
    /// The host must forward this call to the staking ledger.
    Auction(AuctionCall),
}

/// Model of an [`Outcome`].
#[verifier::ext_equal]
pub ghost enum OutcomeModel {
    Completed,
    Auction(AuctionCallModel),
}

impl View for Outcome {
    type V = OutcomeModel;

    open spec fn view(&self) -> OutcomeModel {
        match self {
            Outcome::Completed => OutcomeModel::Completed,
            Outcome::Auction(c) => OutcomeModel::Auction(c@),
        }
    }
}

/// One typed operation of the authority, constructed once per invocation
/// from the caller's arguments and consumed exactly once.
pub enum Api {
    /// Set one key's weight; weight zero removes the key.
    SetKeyWeight(AccountKey, u8),
    /// Set the deployment threshold.
    SetDeploymentThreshold(u8),
    /// Set the key-management threshold.
    SetKeyManagementThreshold(u8),
    /// Replace the whole key set and both thresholds atomically: deployment
    /// threshold, key-management threshold, keys, and their weights in the
    /// same order.
    SetAll(u8, u8, Vec<AccountKey>, Vec<u8>),
    /// Forward a stake delegation.
    Delegate(DelegationRequest),
    /// Withdraw a stake delegation.
    Undelegate(DelegationRequest),
}

/// Model of an [`Api`] command.
#[verifier::ext_equal]
pub ghost enum CommandModel {
    SetKeyWeight(Seq<u8>, u8),
    SetDeploymentThreshold(u8),
    SetKeyManagementThreshold(u8),
    SetAll(u8, u8, Seq<Seq<u8>>, Seq<u8>),
    Delegate(DelegationModel),
    Undelegate(DelegationModel),
}

impl View for Api {
    type V = CommandModel;

    open spec fn view(&self) -> CommandModel {
        match self {
            Api::SetKeyWeight(k, w) => CommandModel::SetKeyWeight(k@, *w),
            Api::SetDeploymentThreshold(w) => CommandModel::SetDeploymentThreshold(*w),
            Api::SetKeyManagementThreshold(w) => CommandModel::SetKeyManagementThreshold(*w),
            Api::SetAll(dep, km, ks, ws) => CommandModel::SetAll(*dep, *km, keys_view(ks@), ws@),
            Api::Delegate(d) => CommandModel::Delegate(d@),
            Api::Undelegate(d) => CommandModel::Undelegate(d@),
        }
    }
}

/// Which command a selector string names, or the unknown-command refusal.
#[derive(Clone, Copy, Debug, PartialEq, Eq, Structural)]
pub enum CommandKind {
    SetKeyWeight,
    SetDeploymentThreshold,
    SetKeyManagementThreshold,
    SetAll,
    Delegate,
    Undelegate,
}

/// What `parse_action` returns for each selector string.
pub open spec fn spec_parse_action(s: Seq<char>) -> Result<CommandKind, Error> {
    if s == SET_KEY_WEIGHT@ {
        Ok(CommandKind::SetKeyWeight)
    } else if s == SET_DEPLOYMENT_THRESHOLD@ {
        Ok(CommandKind::SetDeploymentThreshold)
    } else if s == SET_KEY_MANAGEMENT_THRESHOLD@ {
        Ok(CommandKind::SetKeyManagementThreshold)
    } else if s == SET_ALL@ {
        Ok(CommandKind::SetAll)
    } else if s == DELEGATE@ {
        Ok(CommandKind::Delegate)
    } else if s == UNDELEGATE@ {
        Ok(CommandKind::Undelegate)
    } else {
        Err(Error::UnknownApiCommand)
    }
}

/// Decide which operation a selector names; any unrecognized selector is
/// refused as an unknown command.
pub fn parse_action(action: &String) -> (r: Result<CommandKind, Error>)
    ensures
        r == spec_parse_action(action@),
{
    if *action == String::from_str(SET_KEY_WEIGHT) {
        Ok(CommandKind::SetKeyWeight)
    } else if *action == String::from_str(SET_DEPLOYMENT_THRESHOLD) {
        Ok(CommandKind::SetDeploymentThreshold)
    } else if *action == String::from_str(SET_KEY_MANAGEMENT_THRESHOLD) {
        Ok(CommandKind::SetKeyManagementThreshold)
    } else if *action == String::from_str(SET_ALL) {
        Ok(CommandKind::SetAll)
    } else if *action == String::from_str(DELEGATE) {
        Ok(CommandKind::Delegate)
    } else if *action == String::from_str(UNDELEGATE) {
        Ok(CommandKind::Undelegate)
    } else {
        Err(Error::UnknownApiCommand)
    }
}

/// Build the staking-ledger call for one entry point and request.
fn call_auction(method: AuctionMethod, request: DelegationRequest) -> (c: AuctionCall)
    ensures
        c@ == (AuctionCallModel { method, request: request@ }),
{
    AuctionCall { method, request }
}

/// Build the staking-ledger call that delegates stake.
pub fn delegate(request: DelegationRequest) -> (c: AuctionCall)
    ensures
        c@ == (AuctionCallModel { method: AuctionMethod::Delegate, request: request@ }),
{
    call_auction(AuctionMethod::Delegate, request)
}

/// Build the staking-ledger call that withdraws delegated stake.
pub fn undelegate(request: DelegationRequest) -> (c: AuctionCall)
    ensures
        c@ == (AuctionCallModel { method: AuctionMethod::Undelegate, request: request@ }),
{
    call_auction(AuctionMethod::Undelegate, request)
}

/// What `execute` does to the account state, and what it asks of the host,
/// for each command.
pub open spec fn step_execute(l: LedgerModel, cmd: CommandModel) -> Result<
    (LedgerModel, OutcomeModel),
    Error,
> {
    match cmd {
        CommandModel::SetKeyWeight(k, w) => match step_set_key_weight(l, k, w) {
            Ok(m) => Ok((m, OutcomeModel::Completed)),
            Err(e) => Err(e),
        },
        CommandModel::SetDeploymentThreshold(w) => match step_set_threshold(
            l,
            ActionType::Deployment,
            w,
        ) {
            Ok(m) => Ok((m, OutcomeModel::Completed)),
            Err(e) => Err(e),
        },
        CommandModel::SetKeyManagementThreshold(w) => match step_set_threshold(
            l,
            ActionType::KeyManagement,
            w,
        ) {
            Ok(m) => Ok((m, OutcomeModel::Completed)),
            Err(e) => Err(e),
        },
        CommandModel::SetAll(dep, km, ks, ws) => match step_set_all(l, dep, km, ks, ws) {
            Ok(m) => Ok((m, OutcomeModel::Completed)),
            Err(e) => Err(e),
        },
        CommandModel::Delegate(d) => Ok(
            (
                l,
                OutcomeModel::Auction(
                    AuctionCallModel { method: AuctionMethod::Delegate, request: d },
                ),
            ),
        ),
        CommandModel::Undelegate(d) => Ok(
            (
                l,
                OutcomeModel::Auction(
                    AuctionCallModel { method: AuctionMethod::Undelegate, request: d },
                ),
            ),
        ),
    }
}

/// Run one command against the account ledger: mutate the account state as
/// the command asks, or leave it exactly as it was and report the refusal;
/// a delegation command leaves the state untouched and hands back the
/// staking-ledger call to perform.
pub fn execute(ledger: &mut AccountLedger, api: Api) -> (r: Result<Outcome, Error>)
    requires
        old(ledger)@.wf(),
    ensures
        final(ledger)@.wf(),
        match r {
            Ok(out) => step_execute(old(ledger)@, api@) == Ok::<(LedgerModel, OutcomeModel), Error>(
                (final(ledger)@, out@),
            ),
            Err(e) => step_execute(old(ledger)@, api@) == Err::<
                (LedgerModel, OutcomeModel),
                Error,
            >(e) && final(ledger)@ == old(ledger)@,
        },
{
    match api {
        Api::SetKeyWeight(key, weight) => match set_key_weight(ledger, &key, weight) {
            Ok(_) => Ok(Outcome::Completed),
            Err(e) => Err(e),
        },
        Api::SetDeploymentThreshold(weight) => match set_threshold(
            ledger,
            ActionType::Deployment,
            weight,
        ) {
            Ok(_) => Ok(Outcome::Completed),
            Err(e) => Err(e),
        },
        Api::SetKeyManagementThreshold(weight) => match set_threshold(
            ledger,
            ActionType::KeyManagement,
            weight,
        ) {
            Ok(_) => Ok(Outcome::Completed),
            Err(e) => Err(e),
        },
        Api::SetAll(deployment_threshold, key_management_threshold, accounts, weights) => match
        set_all(ledger, deployment_threshold, key_management_threshold, &accounts, &weights) {
            Ok(_) => Ok(Outcome::Completed),
            Err(e) => Err(e),
        },
        Api::Delegate(request) => Ok(Outcome::Auction(delegate(request))),
        Api::Undelegate(request) => Ok(Outcome::Auction(undelegate(request))),
    }
}

} // verus!
