//! Mathematical model of the account ledger's state: an ordered sequence of
//! weighted keys plus the two action thresholds, with the facts about weight
//! sums and key lookup that the mutation contracts are stated over.

use vstd::prelude::*;

verus! {

/// One associated key in the model: the key's identifying bytes and its
/// signing weight.
#[verifier::ext_equal]
pub ghost struct KeyWeight {
    pub key: Seq<u8>,
    pub weight: u8,
}

/// Abstract state of one account as the ledger holds it: the associated keys
/// in insertion order, the two thresholds, whether the caller passed the
/// ledger's key-management authorization check, and the key-set capacity.
#[verifier::ext_equal]
pub ghost struct LedgerModel {
    pub keys: Seq<KeyWeight>,
    pub deployment_threshold: u8,
    pub key_management_threshold: u8,
    pub authorized: bool,
    pub max_keys: usize,
}

/// Sum of the signing weights of a sequence of associated keys.
pub open spec fn total_of(s: Seq<KeyWeight>) -> int
    decreases s.len(),
{
    if s.len() == 0 {
        0
    } else {
        s[0].weight + total_of(s.drop_first())
    }
}

/// Index of the first entry whose key equals `k`, or -1 if no entry does.
pub open spec fn first_index_of(s: Seq<KeyWeight>, k: Seq<u8>) -> int
    decreases s.len(),
{
    if s.len() == 0 {
        -1
    } else if s[0].key == k {
        0
    } else if first_index_of(s.drop_first(), k) < 0 {
        -1
    } else {
        1 + first_index_of(s.drop_first(), k)
    }
}

/// No two entries carry the same key.
pub open spec fn unique_keys(s: Seq<KeyWeight>) -> bool {
    forall|i: int, j: int| 0 <= i < j < s.len() ==> s[i].key != s[j].key
}

impl LedgerModel {
    /// Whether some associated key has the identifying bytes `k`.
    pub open spec fn contains_key(self, k: Seq<u8>) -> bool {
        first_index_of(self.keys, k) >= 0
    }

    /// The weight of the first associated key with bytes `k`.
    pub open spec fn weight_of(self, k: Seq<u8>) -> u8 {
        self.keys[first_index_of(self.keys, k)].weight
    }

    /// Sum of all associated key weights.
    pub open spec fn total(self) -> int {
        total_of(self.keys)
    }

    /// The ledger's state invariant: keys are unique, the deployment
    /// threshold never exceeds the key-management threshold, no threshold
    /// exceeds the total signing weight, and the key set fits its capacity.
    pub open spec fn wf(self) -> bool {
        &&& unique_keys(self.keys)
        &&& self.deployment_threshold <= self.key_management_threshold
        &&& self.key_management_threshold as int <= self.total()
        &&& self.keys.len() <= self.max_keys
    }
}

/// `first_index_of` finds the least index holding `k`, and -1 exactly when no
/// index holds it.
pub proof fn lemma_first_index_of(s: Seq<KeyWeight>, k: Seq<u8>)
    ensures
        -1 <= first_index_of(s, k) < s.len(),
        first_index_of(s, k) == -1 ==> forall|i: int| 0 <= i < s.len() ==> s[i].key != k,
        first_index_of(s, k) >= 0 ==> {
            let fi = first_index_of(s, k);
            &&& fi < s.len()
            &&& s[fi].key == k
            &&& forall|j: int| 0 <= j < fi ==> s[j].key != k
        },
    decreases s.len(),
{
    if s.len() > 0 && s[0].key != k {
        lemma_first_index_of(s.drop_first(), k);
        if first_index_of(s.drop_first(), k) == -1 {
            assert forall|i: int| 0 <= i < s.len() implies s[i].key != k by {
                if i > 0 {
                    assert(s.drop_first()[i - 1] == s[i]);
                }
            }
        } else {
            let fi = first_index_of(s, k);
            assert(s[fi] == s.drop_first()[fi - 1]);
            assert forall|j: int| 0 <= j < fi implies s[j].key != k by {
                if j > 0 {
                    assert(s.drop_first()[j - 1] == s[j]);
                }
            }
        }
    }
}

/// A weight sum is never negative.
pub proof fn lemma_total_nonneg(s: Seq<KeyWeight>)
    ensures
        total_of(s) >= 0,
    decreases s.len(),
{
    if s.len() > 0 {
        lemma_total_nonneg(s.drop_first());
    }
}

/// A weight sum is at most 255 per entry.
pub proof fn lemma_total_upper(s: Seq<KeyWeight>)
    ensures
        total_of(s) <= 255 * s.len(),
    decreases s.len(),
{
    if s.len() > 0 {
        lemma_total_upper(s.drop_first());
    }
}

/// Replacing the entry at `i` changes the sum by the difference in weight.
pub proof fn lemma_total_update(s: Seq<KeyWeight>, i: int, e: KeyWeight)
    requires
        0 <= i < s.len(),
    ensures
        total_of(s.update(i, e)) == total_of(s) - s[i].weight + e.weight,
    decreases s.len(),
{
    if i == 0 {
        assert(s.update(0, e).drop_first() =~= s.drop_first());
    } else {
        lemma_total_update(s.drop_first(), i - 1, e);
        assert(s.update(i, e).drop_first() =~= s.drop_first().update(i - 1, e));
    }
}

/// Removing the entry at `i` lowers the sum by that entry's weight.
pub proof fn lemma_total_remove(s: Seq<KeyWeight>, i: int)
    requires
        0 <= i < s.len(),
    ensures
        total_of(s.remove(i)) == total_of(s) - s[i].weight,
    decreases s.len(),
{
    if i == 0 {
        assert(s.remove(0) =~= s.drop_first());
    } else {
        lemma_total_remove(s.drop_first(), i - 1);
        assert(s.remove(i).drop_first() =~= s.drop_first().remove(i - 1));
    }
}

/// Appending an entry raises the sum by that entry's weight.
pub proof fn lemma_total_push(s: Seq<KeyWeight>, e: KeyWeight)
    ensures
        total_of(s.push(e)) == total_of(s) + e.weight,
    decreases s.len(),
{
    if s.len() == 0 {
        assert(s.push(e)[0] == e);
        assert(s.push(e).drop_first() =~= Seq::<KeyWeight>::empty());
        assert(total_of(s.push(e)) == e.weight + total_of(s.push(e).drop_first()));
    } else {
        assert(s.push(e)[0] == s[0]);
        lemma_total_push(s.drop_first(), e);
        assert(s.push(e).drop_first() =~= s.drop_first().push(e));
        assert(total_of(s.push(e)) == s[0].weight + total_of(s.drop_first().push(e)));
        assert(total_of(s) == s[0].weight + total_of(s.drop_first()));
    }
}

/// Every single entry's weight is bounded by the whole sum.
pub proof fn lemma_total_element_bound(s: Seq<KeyWeight>, i: int)
    requires
        0 <= i < s.len(),
    ensures
        s[i].weight <= total_of(s),
{
    lemma_total_remove(s, i);
    lemma_total_nonneg(s.remove(i));
}

} // verus!
