//! The account ledger: the authoritative holder of one account's associated
//! keys and action thresholds, with the four mutation primitives and their
//! closed sets of refusal reasons.
//!
//! Each primitive's behaviour is pinned by a step function over
//! [`crate::model::LedgerModel`]; the exec code is proved to realize exactly
//! that step.

use vstd::prelude::*;

use crate::model::{
    first_index_of, lemma_first_index_of, lemma_total_element_bound, lemma_total_nonneg,
    lemma_total_push, lemma_total_remove, lemma_total_update, lemma_total_upper, total_of,
    unique_keys, KeyWeight, LedgerModel,
};

verus! {

/// A key identifier: the raw bytes of an account hash.
pub struct AccountKey {
    pub bytes: Vec<u8>,
}

impl View for AccountKey {
    type V = Seq<u8>;

    open spec fn view(&self) -> Seq<u8> {
        self.bytes@
    }
}

impl AccountKey {
    /// Wrap raw identifying bytes as a key.
    pub fn new(bytes: Vec<u8>) -> (r: AccountKey)
        ensures
            r@ == bytes@,
    {
        AccountKey { bytes }
    }

    /// Byte-for-byte equality of two keys.
    pub fn matches(&self, other: &AccountKey) -> (r: bool)
        ensures
            r == (self@ == other@),
    {
        if self.bytes.len() != other.bytes.len() {
            return false;
        }
        let n = self.bytes.len();
        let mut i: usize = 0;
        while i < n
            invariant
                n == self.bytes.len(),
                n == other.bytes.len(),
                i <= n,
                forall|j: int| 0 <= j < i ==> self.bytes@[j] == other.bytes@[j],
            decreases n - i,
        {
            if self.bytes[i] != other.bytes[i] {
                return false;
            }
            i = i + 1;
        }
        proof {
            assert(self@ =~= other@);
        }
        true
    }

    /// An independent copy of this key.
    pub fn duplicate(&self) -> (r: AccountKey)
        ensures
            r@ == self@,
    {
        let mut bytes: Vec<u8> = Vec::new();
        let n = self.bytes.len();
        let mut i: usize = 0;
        while i < n
            invariant
                n == self.bytes.len(),
                i <= n,
                bytes@ == self.bytes@.take(i as int),
            decreases n - i,
        {
            bytes.push(self.bytes[i]);
            proof {
                assert(bytes@ =~= self.bytes@.take(i + 1));
            }
            i = i + 1;
        }
        proof {
            assert(bytes@ =~= self.bytes@);
        }
        AccountKey { bytes }
    }
}

/// One associated key as the ledger stores it.
pub struct KeyEntry {
    pub key: AccountKey,
    pub weight: u8,
}

impl View for KeyEntry {
    type V = KeyWeight;

    open spec fn view(&self) -> KeyWeight {
        KeyWeight { key: self.key@, weight: self.weight }
    }
}

impl KeyEntry {
    /// Pair a key with its signing weight.
    pub fn new(key: AccountKey, weight: u8) -> (r: KeyEntry)
        ensures
            r@ == (KeyWeight { key: key@, weight }),
    {
        KeyEntry { key, weight }
    }

    /// An independent copy of this entry.
    pub fn duplicate(&self) -> (r: KeyEntry)
        ensures
            r@ == self@,
    {
        KeyEntry { key: self.key.duplicate(), weight: self.weight }
    }
}

/// The two action categories, each with its own approval threshold.
#[derive(Clone, Copy, Debug, PartialEq, Eq, Structural)]
pub enum ActionType {
    /// Ordinary transactions.
    Deployment,
    /// Changes to the keys and thresholds themselves.
    KeyManagement,
}

/// Why the ledger refused to update an existing key's weight.
#[derive(Clone, Copy, Debug, PartialEq, Eq, Structural)]
pub enum UpdateKeyFailure {
    MissingKey,
    PermissionDenied,
    ThresholdViolation,
}

/// Why the ledger refused to add a new key.
#[derive(Clone, Copy, Debug, PartialEq, Eq, Structural)]
pub enum AddKeyFailure {
    MaxKeysLimit,
    DuplicateKey,
    PermissionDenied,
}

/// Why the ledger refused to remove a key.
#[derive(Clone, Copy, Debug, PartialEq, Eq, Structural)]
pub enum RemoveKeyFailure {
    MissingKey,
    PermissionDenied,
    ThresholdViolation,
}

/// Why the ledger refused to set an action threshold.
#[derive(Clone, Copy, Debug, PartialEq, Eq, Structural)]
pub enum SetThresholdFailure {
    KeyManagementThreshold,
    DeploymentThreshold,
    PermissionDeniedError,
    InsufficientTotalWeight,
}

/// What `AccountLedger::update_associated_key` does to the account state.
pub open spec fn step_update_key(l: LedgerModel, k: Seq<u8>, w: u8) -> Result<
    LedgerModel,
    UpdateKeyFailure,
> {
    if !l.authorized {
        Err(UpdateKeyFailure::PermissionDenied)
    } else if !l.contains_key(k) {
        Err(UpdateKeyFailure::MissingKey)
    } else if l.total() - l.weight_of(k) + w < l.deployment_threshold || l.total() - l.weight_of(k)
        + w < l.key_management_threshold {
        Err(UpdateKeyFailure::ThresholdViolation)
    } else {
        Ok(
            LedgerModel {
                keys: l.keys.update(
                    first_index_of(l.keys, k),
                    KeyWeight { key: k, weight: w },
                ),
                ..l
            },
        )
    }
}

/// What `AccountLedger::add_associated_key` does to the account state.
pub open spec fn step_add_key(l: LedgerModel, k: Seq<u8>, w: u8) -> Result<
    LedgerModel,
    AddKeyFailure,
> {
    if !l.authorized {
        Err(AddKeyFailure::PermissionDenied)
    } else if l.keys.len() >= l.max_keys {
        Err(AddKeyFailure::MaxKeysLimit)
    } else if l.contains_key(k) {
        Err(AddKeyFailure::DuplicateKey)
    } else {
        Ok(LedgerModel { keys: l.keys.push(KeyWeight { key: k, weight: w }), ..l })
    }
}

/// What `AccountLedger::remove_associated_key` does to the account state.
pub open spec fn step_remove_key(l: LedgerModel, k: Seq<u8>) -> Result<
    LedgerModel,
    RemoveKeyFailure,
> {
    if !l.authorized {
        Err(RemoveKeyFailure::PermissionDenied)
    } else if !l.contains_key(k) {
        Err(RemoveKeyFailure::MissingKey)
    } else if l.total() - l.weight_of(k) < l.deployment_threshold || l.total() - l.weight_of(k)
        < l.key_management_threshold {
        Err(RemoveKeyFailure::ThresholdViolation)
    } else {
        Ok(LedgerModel { keys: l.keys.remove(first_index_of(l.keys, k)), ..l })
    }
}

/// What `AccountLedger::set_action_threshold` does to the account state.
pub open spec fn step_set_action_threshold(l: LedgerModel, action: ActionType, w: u8) -> Result<
    LedgerModel,
    SetThresholdFailure,
> {
    if !l.authorized {
        Err(SetThresholdFailure::PermissionDeniedError)
    } else if w > l.total() {
        Err(SetThresholdFailure::InsufficientTotalWeight)
    } else if action == ActionType::Deployment && w > l.key_management_threshold {
        Err(SetThresholdFailure::DeploymentThreshold)
    } else if action == ActionType::KeyManagement && w < l.deployment_threshold {
        Err(SetThresholdFailure::KeyManagementThreshold)
    } else if action == ActionType::Deployment {
        Ok(LedgerModel { deployment_threshold: w, ..l })
    } else {
        Ok(LedgerModel { key_management_threshold: w, ..l })
    }
}

/// The authoritative per-account state: associated keys with weights, the two
/// action thresholds, the outcome of the caller's authorization check, and
/// the key-set capacity.
pub struct AccountLedger {
    pub keys: Vec<KeyEntry>,
    pub deployment_threshold: u8,
    pub key_management_threshold: u8,
    pub key_management_authorized: bool,
    pub max_keys: usize,
}

impl View for AccountLedger {
    type V = LedgerModel;

    open spec fn view(&self) -> LedgerModel {
        LedgerModel {
            keys: self.keys@.map(|i: int, e: KeyEntry| e@),
            deployment_threshold: self.deployment_threshold,
            key_management_threshold: self.key_management_threshold,
            authorized: self.key_management_authorized,
            max_keys: self.max_keys,
        }
    }
}

impl AccountLedger {
    /// Build an account state from its parts, validating the state invariant:
    /// unique keys, deployment threshold at most the key-management
    /// threshold, key-management threshold at most the total weight, and the
    /// key set within capacity.
    #[verifier::loop_isolation(false)]
    pub fn new(
        keys: Vec<KeyEntry>,
        deployment_threshold: u8,
        key_management_threshold: u8,
        key_management_authorized: bool,
        max_keys: usize,
    ) -> (r: Option<AccountLedger>)
        ensures
            ({
                let m = LedgerModel {
                    keys: keys@.map(|i: int, e: KeyEntry| e@),
                    deployment_threshold,
                    key_management_threshold,
                    authorized: key_management_authorized,
                    max_keys,
                };
                match r {
                    Some(l) => l@ == m && m.wf(),
                    None => !m.wf(),
                }
            }),
    {
        let candidate = AccountLedger {
            keys,
            deployment_threshold,
            key_management_threshold,
            key_management_authorized,
            max_keys,
        };
        let ghost m = candidate@;
        let n = candidate.keys.len();
        if n > max_keys {
            return None;
        }
        if deployment_threshold > key_management_threshold {
            return None;
        }
        let total = candidate.total_weight();
        if (key_management_threshold as u128) > total {
            return None;
        }
        let mut i: usize = 0;
        while i < n
            invariant
                n == candidate.keys.len(),
                i <= n,
                m == candidate@,
                forall|a: int, b: int| 0 <= a < b < n && a < i ==> m.keys[a].key != m.keys[b].key,
            decreases n - i,
        {
            let mut j: usize = i + 1;
            while j < n
                invariant
                    n == candidate.keys.len(),
                    i < j <= n,
                    m == candidate@,
                    forall|b: int| i < b < j ==> m.keys[i as int].key != m.keys[b].key,
                decreases n - j,
            {
                if candidate.keys[i].key.matches(&candidate.keys[j].key) {
                    proof {
                        assert(m.keys[i as int].key == m.keys[j as int].key);
                        assert(!unique_keys(m.keys));
                    }
                    return None;
                }
                j = j + 1;
            }
            i = i + 1;
        }
        Some(candidate)
    }

    /// Index of the first entry holding `key`, if any.
    fn find_key(&self, key: &AccountKey) -> (r: Option<usize>)
        ensures
            match r {
                Some(i) => i as int == first_index_of(self@.keys, key@) && (i as int)
                    < self@.keys.len(),
                None => first_index_of(self@.keys, key@) == -1,
            },
    {
        let n = self.keys.len();
        let mut i: usize = 0;
        while i < n
            invariant
                n == self.keys.len(),
                i <= n,
                forall|j: int| 0 <= j < i ==> self@.keys[j].key != key@,
            decreases n - i,
        {
            if self.keys[i].key.matches(key) {
                proof {
                    lemma_first_index_of(self@.keys, key@);
                    assert(self@.keys[i as int].key == key@);
                    let fi = first_index_of(self@.keys, key@);
                    assert(fi >= 0);
                    assert(fi == i) by {
                        if fi < i {
                            assert(self@.keys[fi].key == key@);
                        }
                    }
                }
                return Some(i);
            }
            i = i + 1;
        }
        proof {
            lemma_first_index_of(self@.keys, key@);
            let fi = first_index_of(self@.keys, key@);
            if fi >= 0 {
                assert(self@.keys[fi].key == key@);
            }
        }
        None
    }

    /// Sum of all associated key weights.
    pub fn total_weight(&self) -> (t: u128)
        ensures
            t == self@.total(),
            t <= 255 * (usize::MAX as u128),
    {
        proof {
            lemma_total_nonneg(self@.keys);
            lemma_total_upper(self@.keys);
        }
        let n = self.keys.len();
        let mut acc: u128 = 0;
        let mut i: usize = 0;
        while i < n
            invariant
                n == self.keys.len(),
                i <= n,
                acc == total_of(self@.keys.take(i as int)),
                acc <= 255 * i,
            decreases n - i,
        {
            proof {
                assert(self@.keys.take(i + 1) =~= self@.keys.take(i as int).push(
                    self@.keys[i as int],
                ));
                lemma_total_push(self@.keys.take(i as int), self@.keys[i as int]);
            }
            acc = acc + self.keys[i].weight as u128;
            i = i + 1;
        }
        proof {
            assert(self@.keys.take(n as int) =~= self@.keys);
        }
        acc
    }

    /// An independent copy of the whole ledger state.
    pub fn duplicate(&self) -> (r: AccountLedger)
        ensures
            r@ == self@,
    {
        let mut keys: Vec<KeyEntry> = Vec::new();
        let n = self.keys.len();
        let mut i: usize = 0;
        while i < n
            invariant
                n == self.keys.len(),
                i <= n,
                keys@.len() == i,
                forall|j: int| 0 <= j < i ==> keys@[j]@ == self.keys@[j]@,
            decreases n - i,
        {
            keys.push(self.keys[i].duplicate());
            i = i + 1;
        }
        let r = AccountLedger {
            keys,
            deployment_threshold: self.deployment_threshold,
            key_management_threshold: self.key_management_threshold,
            key_management_authorized: self.key_management_authorized,
            max_keys: self.max_keys,
        };
        proof {
            assert(r@.keys =~= self@.keys);
            assert(r@ =~= self@);
        }
        r
    }

    /// Change the weight of an existing associated key, refusing the change
    /// when the caller is unauthorized, the key is absent, or the new total
    /// weight would fall below a configured threshold.
    pub fn update_associated_key(&mut self, key: &AccountKey, weight: u8) -> (r: Result<
        (),
        UpdateKeyFailure,
    >)
        requires
            old(self)@.wf(),
        ensures
            final(self)@.wf(),
            match r {
                Ok(_) => step_update_key(old(self)@, key@, weight) == Ok::<
                    LedgerModel,
                    UpdateKeyFailure,
                >(final(self)@),
                Err(e) => step_update_key(old(self)@, key@, weight) == Err::<
                    LedgerModel,
                    UpdateKeyFailure,
                >(e) && final(self)@ == old(self)@,
            },
    {
        if !self.key_management_authorized {
            return Err(UpdateKeyFailure::PermissionDenied);
        }
        match self.find_key(key) {
            None => Err(UpdateKeyFailure::MissingKey),
            Some(i) => {
                let ghost m = self@;
                let ghost fi = first_index_of(m.keys, key@);
                let total = self.total_weight();
                let old_w = self.keys[i].weight;
                proof {
                    lemma_first_index_of(m.keys, key@);
                    lemma_total_element_bound(m.keys, fi);
                    assert(m.weight_of(key@) == old_w);
                }
                let new_total = total - (old_w as u128) + (weight as u128);
                if new_total < (self.deployment_threshold as u128) || new_total < (
                self.key_management_threshold as u128) {
                    Err(UpdateKeyFailure::ThresholdViolation)
                } else {
                    self.keys[i].weight = weight;
                    proof {
                        let kw = KeyWeight { key: key@, weight };
                        assert(m.keys[fi].key == key@);
                        assert(self@.keys =~= m.keys.update(fi, kw));
                        assert(self@ =~= (LedgerModel { keys: m.keys.update(fi, kw), ..m }));
                        lemma_total_update(m.keys, fi, kw);
                        assert(unique_keys(self@.keys)) by {
                            assert(forall|j: int|
                                0 <= j < self@.keys.len() ==> self@.keys[j].key == m.keys[j].key);
                        }
                    }
                    Ok(())
                }
            },
        }
    }

    /// Attach a new associated key, refusing when the caller is unauthorized,
    /// the key set is at capacity, or the key is already present.
    pub fn add_associated_key(&mut self, key: &AccountKey, weight: u8) -> (r: Result<
        (),
        AddKeyFailure,
    >)
        requires
            old(self)@.wf(),
        ensures
            final(self)@.wf(),
            match r {
                Ok(_) => step_add_key(old(self)@, key@, weight) == Ok::<LedgerModel, AddKeyFailure>(
                    final(self)@,
                ),
                Err(e) => step_add_key(old(self)@, key@, weight) == Err::<
                    LedgerModel,
                    AddKeyFailure,
                >(e) && final(self)@ == old(self)@,
            },
    {
        if !self.key_management_authorized {
            return Err(AddKeyFailure::PermissionDenied);
        }
        if self.keys.len() >= self.max_keys {
            return Err(AddKeyFailure::MaxKeysLimit);
        }
        match self.find_key(key) {
            Some(_) => Err(AddKeyFailure::DuplicateKey),
            None => {
                let ghost m = self@;
                proof {
                    lemma_first_index_of(m.keys, key@);
                }
                self.keys.push(KeyEntry { key: key.duplicate(), weight });
                proof {
                    let kw = KeyWeight { key: key@, weight };
                    assert(self@.keys =~= m.keys.push(kw));
                    assert(self@ =~= (LedgerModel { keys: m.keys.push(kw), ..m }));
                    lemma_total_push(m.keys, kw);
                    assert(unique_keys(self@.keys)) by {
                        assert(forall|j: int| 0 <= j < m.keys.len() ==> self@.keys[j] == m.keys[j]);
                        assert(forall|j: int| 0 <= j < m.keys.len() ==> m.keys[j].key != key@);
                    }
                }
                Ok(())
            },
        }
    }

    /// Detach an associated key, refusing when the caller is unauthorized,
    /// the key is absent, or the remaining total weight would fall below a
    /// configured threshold.
    pub fn remove_associated_key(&mut self, key: &AccountKey) -> (r: Result<(), RemoveKeyFailure>)
        requires
            old(self)@.wf(),
        ensures
            final(self)@.wf(),
            match r {
                Ok(_) => step_remove_key(old(self)@, key@) == Ok::<LedgerModel, RemoveKeyFailure>(
                    final(self)@,
                ),
                Err(e) => step_remove_key(old(self)@, key@) == Err::<LedgerModel, RemoveKeyFailure>(
                    e,
                ) && final(self)@ == old(self)@,
            },
    {
        if !self.key_management_authorized {
            return Err(RemoveKeyFailure::PermissionDenied);
        }
        match self.find_key(key) {
            None => Err(RemoveKeyFailure::MissingKey),
            Some(i) => {
                let ghost m = self@;
                let ghost fi = first_index_of(m.keys, key@);
                let total = self.total_weight();
                let old_w = self.keys[i].weight;
                proof {
                    lemma_first_index_of(m.keys, key@);
                    lemma_total_element_bound(m.keys, fi);
                    assert(m.weight_of(key@) == old_w);
                }
                let remaining = total - (old_w as u128);
                if remaining < (self.deployment_threshold as u128) || remaining < (
                self.key_management_threshold as u128) {
                    Err(RemoveKeyFailure::ThresholdViolation)
                } else {
                    self.keys.remove(i);
                    proof {
                        assert(self@.keys =~= m.keys.remove(fi));
                        assert(self@ =~= (LedgerModel { keys: m.keys.remove(fi), ..m }));
                        lemma_total_remove(m.keys, fi);
                        assert(unique_keys(self@.keys)) by {
                            assert(forall|j: int|
                                0 <= j < self@.keys.len() ==> self@.keys[j] == m.keys[
                                    if j < fi {
                                        j
                                    } else {
                                        j + 1
                                    }
                                ]);
                        }
                    }
                    Ok(())
                }
            },
        }
    }

    /// Set one action threshold, refusing when the caller is unauthorized,
    /// the new value exceeds the total signing weight, or the category's own
    /// ordering rule (deployment never above key management) is broken.
    pub fn set_action_threshold(&mut self, action: ActionType, weight: u8) -> (r: Result<
        (),
        SetThresholdFailure,
    >)
        requires
            old(self)@.wf(),
        ensures
            final(self)@.wf(),
            match r {
                Ok(_) => step_set_action_threshold(old(self)@, action, weight) == Ok::<
                    LedgerModel,
                    SetThresholdFailure,
                >(final(self)@),
                Err(e) => step_set_action_threshold(old(self)@, action, weight) == Err::<
                    LedgerModel,
                    SetThresholdFailure,
                >(e) && final(self)@ == old(self)@,
            },
    {
        if !self.key_management_authorized {
            return Err(SetThresholdFailure::PermissionDeniedError);
        }
        let ghost m = self@;
        let total = self.total_weight();
        if (weight as u128) > total {
            return Err(SetThresholdFailure::InsufficientTotalWeight);
        }
        match action {
            ActionType::Deployment => {
                if weight > self.key_management_threshold {
                    Err(SetThresholdFailure::DeploymentThreshold)
                } else {
                    self.deployment_threshold = weight;
                    proof {
                        assert(self@ =~= (LedgerModel { deployment_threshold: weight, ..m }));
                    }
                    Ok(())
                }
            },
            ActionType::KeyManagement => {
                if weight < self.deployment_threshold {
                    Err(SetThresholdFailure::KeyManagementThreshold)
                } else {
                    self.key_management_threshold = weight;
                    proof {
                        assert(self@ =~= (LedgerModel { key_management_threshold: weight, ..m }));
                    }
                    Ok(())
                }
            },
        }
    }
}

} // verus!
