//! Account access-control authority: weighted signing keys and two approval
//! thresholds for a single account, mutated atomically through a small set of
//! commands.
//!
//! The authoritative account state is [`ledger::AccountLedger`], whose
//! mathematical view and invariant live in [`model`]. The mutation engine in
//! [`manager`] decides whether a requested change is legal and translates
//! each refusal into the error taxonomy of [`error`]; [`api`] holds the
//! command set, selector parsing and the dispatcher; [`laws`] proves the
//! governing properties once and for all; [`driver`] exposes the same
//! decisions to plumbing that drives a host-held ledger.

pub mod api;
pub mod driver;
pub mod error;
pub mod laws;
pub mod ledger;
pub mod manager;
pub mod model;
