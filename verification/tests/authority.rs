use keys_manager::api::{
    execute, parse_action, Api, AuctionMethod, CommandKind, DelegationRequest, Outcome,
};
use keys_manager::error::Error;
use keys_manager::ledger::{AccountKey, AccountLedger, ActionType, KeyEntry};
use keys_manager::manager::{add_key, set_all, set_key_weight, set_threshold};

fn key(b: u8) -> AccountKey {
    AccountKey::new(vec![b; 32])
}

fn ledger_with(
    entries: &[(u8, u8)],
    deployment_threshold: u8,
    key_management_threshold: u8,
    authorized: bool,
    max_keys: usize,
) -> AccountLedger {
    let mut keys: Vec<KeyEntry> = Vec::new();
    for (b, w) in entries {
        keys.push(KeyEntry::new(key(*b), *w));
    }
    AccountLedger::new(
        keys,
        deployment_threshold,
        key_management_threshold,
        authorized,
        max_keys,
    )
    .expect("the starting state satisfies the ledger invariant")
}

fn weight_in(ledger: &AccountLedger, b: u8) -> Option<u8> {
    let k = key(b);
    for entry in ledger.keys.iter() {
        if entry.key.bytes == k.bytes {
            return Some(entry.weight);
        }
    }
    None
}

fn snapshot(ledger: &AccountLedger) -> (Vec<(Vec<u8>, u8)>, u8, u8) {
    let mut keys: Vec<(Vec<u8>, u8)> = Vec::new();
    for entry in ledger.keys.iter() {
        keys.push((entry.key.bytes.clone(), entry.weight));
    }
    (
        keys,
        ledger.deployment_threshold,
        ledger.key_management_threshold,
    )
}

#[test]
fn removing_key_below_threshold_is_refused() {
    let mut ledger = ledger_with(&[(b'a', 10)], 5, 5, true, 10);
    let before = snapshot(&ledger);
    let r = set_key_weight(&mut ledger, &key(b'a'), 0);
    assert_eq!(r, Err(Error::ThresholdViolation));
    assert_eq!(snapshot(&ledger), before);
}

#[test]
fn adding_new_key_succeeds() {
    let mut ledger = ledger_with(&[(b'a', 10)], 5, 5, true, 10);
    let r = set_key_weight(&mut ledger, &key(b'b'), 3);
    assert_eq!(r, Ok(()));
    assert_eq!(weight_in(&ledger, b'a'), Some(10));
    assert_eq!(weight_in(&ledger, b'b'), Some(3));
    assert_eq!(ledger.keys.len(), 2);
}

#[test]
fn threshold_above_total_weight_is_refused() {
    let mut ledger = ledger_with(&[(b'a', 10), (b'b', 3)], 5, 5, true, 10);
    let r = set_threshold(&mut ledger, ActionType::Deployment, 20);
    assert_eq!(r, Err(Error::InsufficientTotalWeight));
    let r = set_threshold(&mut ledger, ActionType::KeyManagement, 20);
    assert_eq!(r, Err(Error::InsufficientTotalWeight));
    assert_eq!(ledger.deployment_threshold, 5);
    assert_eq!(ledger.key_management_threshold, 5);
}

#[test]
fn unknown_selector_is_refused() {
    let r = parse_action(&String::from("frobnicate"));
    assert_eq!(r, Err(Error::UnknownApiCommand));
}

#[test]
fn removing_absent_key_is_idempotent() {
    let mut ledger = ledger_with(&[(b'a', 10)], 5, 5, true, 10);
    let before = snapshot(&ledger);
    let r = set_key_weight(&mut ledger, &key(b'z'), 0);
    assert_eq!(r, Ok(()));
    assert_eq!(snapshot(&ledger), before);
}

#[test]
fn removing_present_key_succeeds_when_thresholds_allow() {
    let mut ledger = ledger_with(&[(b'a', 10), (b'b', 5)], 5, 5, true, 10);
    let r = set_key_weight(&mut ledger, &key(b'b'), 0);
    assert_eq!(r, Ok(()));
    assert_eq!(weight_in(&ledger, b'b'), None);
    assert_eq!(weight_in(&ledger, b'a'), Some(10));
}

#[test]
fn updating_existing_key_changes_weight_in_place() {
    let mut ledger = ledger_with(&[(b'a', 10), (b'b', 3)], 5, 5, true, 10);
    let r = set_key_weight(&mut ledger, &key(b'b'), 7);
    assert_eq!(r, Ok(()));
    assert_eq!(weight_in(&ledger, b'b'), Some(7));
    assert_eq!(ledger.keys.len(), 2);
}

#[test]
fn update_dropping_total_below_threshold_is_refused() {
    let mut ledger = ledger_with(&[(b'a', 10)], 5, 5, true, 10);
    let r = set_key_weight(&mut ledger, &key(b'a'), 4);
    assert_eq!(r, Err(Error::ThresholdViolation));
    assert_eq!(weight_in(&ledger, b'a'), Some(10));
}

#[test]
fn unauthorized_caller_is_refused() {
    let mut ledger = ledger_with(&[(b'a', 10)], 5, 5, false, 10);
    let before = snapshot(&ledger);
    assert_eq!(
        set_key_weight(&mut ledger, &key(b'b'), 3),
        Err(Error::PermissionDenied)
    );
    assert_eq!(
        set_key_weight(&mut ledger, &key(b'a'), 0),
        Err(Error::PermissionDenied)
    );
    assert_eq!(
        set_threshold(&mut ledger, ActionType::Deployment, 5),
        Err(Error::PermissionDenied)
    );
    assert_eq!(snapshot(&ledger), before);
}

#[test]
fn full_key_set_refuses_a_new_key() {
    let mut ledger = ledger_with(&[(b'a', 10)], 5, 5, true, 1);
    let r = set_key_weight(&mut ledger, &key(b'b'), 3);
    assert_eq!(r, Err(Error::MaxKeysLimit));
    assert_eq!(ledger.keys.len(), 1);
}

#[test]
fn full_key_set_still_updates_existing_key() {
    let mut ledger = ledger_with(&[(b'a', 10)], 5, 5, true, 1);
    let r = set_key_weight(&mut ledger, &key(b'a'), 12);
    assert_eq!(r, Ok(()));
    assert_eq!(weight_in(&ledger, b'a'), Some(12));
}

#[test]
fn adding_a_key_twice_reports_a_duplicate() {
    let mut ledger = ledger_with(&[(b'a', 10)], 5, 5, true, 10);
    let r = add_key(&mut ledger, &key(b'a'), 4);
    assert_eq!(r, Err(Error::DuplicateKey));
    assert_eq!(weight_in(&ledger, b'a'), Some(10));
}

#[test]
fn key_management_threshold_below_deployment_is_refused() {
    let mut ledger = ledger_with(&[(b'a', 10)], 5, 5, true, 10);
    let r = set_threshold(&mut ledger, ActionType::KeyManagement, 3);
    assert_eq!(r, Err(Error::KeyManagementThresholdError));
    assert_eq!(ledger.key_management_threshold, 5);
}

#[test]
fn deployment_threshold_above_key_management_is_refused() {
    let mut ledger = ledger_with(&[(b'a', 10)], 5, 5, true, 10);
    let r = set_threshold(&mut ledger, ActionType::Deployment, 7);
    assert_eq!(r, Err(Error::DeploymentThresholdError));
    assert_eq!(ledger.deployment_threshold, 5);
}

#[test]
fn thresholds_can_be_raised_within_total_weight() {
    let mut ledger = ledger_with(&[(b'a', 10)], 5, 5, true, 10);
    assert_eq!(set_threshold(&mut ledger, ActionType::KeyManagement, 9), Ok(()));
    assert_eq!(set_threshold(&mut ledger, ActionType::Deployment, 8), Ok(()));
    assert_eq!(ledger.key_management_threshold, 9);
    assert_eq!(ledger.deployment_threshold, 8);
}

#[test]
fn set_all_is_all_or_nothing() {
    let mut ledger = ledger_with(&[(b'a', 10)], 5, 5, true, 2);
    let before = snapshot(&ledger);
    let accounts = vec![key(b'b'), key(b'c')];
    let weights: Vec<u8> = vec![3, 4];
    let r = set_all(&mut ledger, 5, 5, &accounts, &weights);
    assert_eq!(r, Err(Error::MaxKeysLimit));
    assert_eq!(snapshot(&ledger), before);
}

#[test]
fn set_all_validates_thresholds_after_key_changes() {
    let mut ledger = ledger_with(&[(b'a', 10), (b'b', 6)], 5, 5, true, 10);
    let before = snapshot(&ledger);
    let accounts = vec![key(b'b')];
    let weights: Vec<u8> = vec![0];
    let r = set_all(&mut ledger, 5, 12, &accounts, &weights);
    assert_eq!(r, Err(Error::InsufficientTotalWeight));
    assert_eq!(snapshot(&ledger), before);
}

#[test]
fn set_all_replaces_keys_and_thresholds() {
    let mut ledger = ledger_with(&[(b'a', 10)], 5, 5, true, 10);
    let accounts = vec![key(b'b')];
    let weights: Vec<u8> = vec![5];
    let r = set_all(&mut ledger, 6, 8, &accounts, &weights);
    assert_eq!(r, Ok(()));
    assert_eq!(weight_in(&ledger, b'a'), Some(10));
    assert_eq!(weight_in(&ledger, b'b'), Some(5));
    assert_eq!(ledger.deployment_threshold, 6);
    assert_eq!(ledger.key_management_threshold, 8);
}

#[test]
fn set_all_pairs_stop_with_the_shorter_list() {
    let mut ledger = ledger_with(&[(b'a', 10)], 5, 5, true, 10);
    let accounts = vec![key(b'b'), key(b'c')];
    let weights: Vec<u8> = vec![3];
    let r = set_all(&mut ledger, 5, 5, &accounts, &weights);
    assert_eq!(r, Ok(()));
    assert_eq!(weight_in(&ledger, b'b'), Some(3));
    assert_eq!(weight_in(&ledger, b'c'), None);
}

#[test]
fn execute_dispatches_key_weight_command() {
    let mut ledger = ledger_with(&[(b'a', 10)], 5, 5, true, 10);
    let r = execute(&mut ledger, Api::SetKeyWeight(key(b'b'), 3));
    assert!(matches!(r, Ok(Outcome::Completed)));
    assert_eq!(weight_in(&ledger, b'b'), Some(3));
}

#[test]
fn execute_dispatches_threshold_commands() {
    let mut ledger = ledger_with(&[(b'a', 10)], 5, 5, true, 10);
    let r = execute(&mut ledger, Api::SetKeyManagementThreshold(9));
    assert!(matches!(r, Ok(Outcome::Completed)));
    let r = execute(&mut ledger, Api::SetDeploymentThreshold(2));
    assert!(matches!(r, Ok(Outcome::Completed)));
    assert_eq!(ledger.key_management_threshold, 9);
    assert_eq!(ledger.deployment_threshold, 2);
}

#[test]
fn execute_dispatches_batch_command() {
    let mut ledger = ledger_with(&[(b'a', 10)], 5, 5, true, 10);
    let api = Api::SetAll(4, 6, vec![key(b'b')], vec![2]);
    let r = execute(&mut ledger, api);
    assert!(matches!(r, Ok(Outcome::Completed)));
    assert_eq!(weight_in(&ledger, b'b'), Some(2));
    assert_eq!(ledger.deployment_threshold, 4);
    assert_eq!(ledger.key_management_threshold, 6);
}

#[test]
fn execute_propagates_batch_refusal() {
    let mut ledger = ledger_with(&[(b'a', 10)], 5, 5, true, 10);
    let before = snapshot(&ledger);
    let api = Api::SetAll(5, 20, vec![key(b'b')], vec![2]);
    let r = execute(&mut ledger, api);
    assert_eq!(r.err(), Some(Error::InsufficientTotalWeight));
    assert_eq!(snapshot(&ledger), before);
}

#[test]
fn execute_forwards_delegation_untouched() {
    let mut ledger = ledger_with(&[(b'a', 10)], 5, 5, true, 10);
    let before = snapshot(&ledger);
    let request = DelegationRequest {
        delegator: vec![1, 2, 3],
        validator: vec![4, 5],
        amount: vec![0, 1],
    };
    let r = execute(&mut ledger, Api::Delegate(request));
    match r {
        Ok(Outcome::Auction(c)) => {
            assert_eq!(c.method, AuctionMethod::Delegate);
            assert_eq!(c.request.delegator, vec![1, 2, 3]);
            assert_eq!(c.request.validator, vec![4, 5]);
            assert_eq!(c.request.amount, vec![0, 1]);
        }
        _ => panic!("a delegation must hand back the auction call"),
    }
    assert_eq!(snapshot(&ledger), before);
}

#[test]
fn execute_forwards_undelegation_untouched() {
    let mut ledger = ledger_with(&[(b'a', 10)], 5, 5, true, 10);
    let request = DelegationRequest {
        delegator: vec![9],
        validator: vec![8],
        amount: vec![7],
    };
    let r = execute(&mut ledger, Api::Undelegate(request));
    match r {
        Ok(Outcome::Auction(c)) => {
            assert_eq!(c.method, AuctionMethod::Undelegate);
            assert_eq!(c.request.delegator, vec![9]);
        }
        _ => panic!("an undelegation must hand back the auction call"),
    }
}

#[test]
fn parse_action_recognizes_each_selector() {
    assert_eq!(
        parse_action(&String::from("set_key_weight")),
        Ok(CommandKind::SetKeyWeight)
    );
    assert_eq!(
        parse_action(&String::from("set_deployment_threshold")),
        Ok(CommandKind::SetDeploymentThreshold)
    );
    assert_eq!(
        parse_action(&String::from("set_key_management_threshold")),
        Ok(CommandKind::SetKeyManagementThreshold)
    );
    assert_eq!(parse_action(&String::from("set_all")), Ok(CommandKind::SetAll));
    assert_eq!(parse_action(&String::from("delegate")), Ok(CommandKind::Delegate));
    assert_eq!(parse_action(&String::from("undelegate")), Ok(CommandKind::Undelegate));
    assert_eq!(parse_action(&String::from("")), Err(Error::UnknownApiCommand));
}

#[test]
fn ledger_construction_validates_the_invariant() {
    let dup = vec![KeyEntry::new(key(b'a'), 1), KeyEntry::new(key(b'a'), 2)];
    assert!(AccountLedger::new(dup, 1, 1, true, 10).is_none());

    let keys = vec![KeyEntry::new(key(b'a'), 10)];
    assert!(AccountLedger::new(keys, 6, 5, true, 10).is_none());

    let keys = vec![KeyEntry::new(key(b'a'), 10)];
    assert!(AccountLedger::new(keys, 5, 11, true, 10).is_none());

    let keys = vec![KeyEntry::new(key(b'a'), 10), KeyEntry::new(key(b'b'), 1)];
    assert!(AccountLedger::new(keys, 1, 1, true, 1).is_none());

    let keys = vec![KeyEntry::new(key(b'a'), 10)];
    assert!(AccountLedger::new(keys, 5, 5, true, 10).is_some());
}

#[test]
fn total_weight_sums_all_keys() {
    let ledger = ledger_with(&[(b'a', 10), (b'b', 3)], 5, 5, true, 10);
    assert_eq!(ledger.total_weight(), 13);
}

#[test]
fn keys_match_byte_for_byte() {
    assert!(key(b'a').matches(&key(b'a')));
    assert!(!key(b'a').matches(&key(b'b')));
    assert!(!AccountKey::new(vec![1]).matches(&AccountKey::new(vec![1, 1])));
}
