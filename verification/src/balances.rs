//! The balance ledger: account identity to balance, default zero.

use vstd::prelude::*;

use crate::store::lemma_lookup_absent;
use crate::store::lemma_lookup_first_match;
use crate::store::lemma_lookup_push_other;
use crate::store::lemma_lookup_update_other;
use crate::store::lemma_sum_push;
use crate::store::lemma_sum_update;
use crate::store::has_key;
use crate::store::lookup;
use crate::store::sum_values;
use crate::store::unique_keys;

verus! {

/// Maps account identities to token balances.
///
/// An account without an entry holds zero; entries persist once created,
/// including at zero. The ledger exposes reads to everyone but writes only
/// within the crate, so the transfer engine's invariant checks cannot be
/// bypassed.
pub struct BalanceLedger {
    entries: Vec<(u64, u64)>,
}

impl BalanceLedger {
    /// The entry sequence behind the ledger, for specification use.
    pub closed spec fn entries(self) -> Seq<(u64, u64)> {
        self.entries@
    }

    /// Each account has at most one entry.
    pub open spec fn wf(self) -> bool {
        unique_keys(self.entries())
    }

    /// The balance the ledger assigns to `account`; zero when unseen.
    pub open spec fn spec_balance_of(self, account: u64) -> u64 {
        lookup(self.entries(), account)
    }

    /// The sum of all recorded balances.
    pub open spec fn spec_sum(self) -> int {
        sum_values(self.entries())
    }

    /// Whether `account` has an entry of its own.
    pub open spec fn has_account(self, account: u64) -> bool {
        has_key(self.entries(), account)
    }

    /// An empty ledger: every account holds zero.
    pub fn new() -> (r: BalanceLedger)
        ensures
            r.wf(),
            r.entries().len() == 0,
            r.spec_sum() == 0,
            forall|a: u64| r.spec_balance_of(a) == 0,
    {
        BalanceLedger { entries: Vec::new() }
    }

    /// The balance held by `account`: zero for an unseen account. A pure
    /// read; it never fails and never alters the ledger.
    pub fn balance_of(&self, account: u64) -> (r: u64)
        ensures
            r == self.spec_balance_of(account),
    {
        let n: usize = self.entries.len();
        let mut i: usize = 0;
        while i < n
            invariant
                n == self.entries@.len(),
                i <= n,
                forall|j: int| 0 <= j < i ==> self.entries@[j].0 != account,
            decreases n - i,
        {
            if self.entries[i].0 == account {
                proof {
                    lemma_lookup_first_match(self.entries@, account, i as int);
                }
                return self.entries[i].1;
            }
            i += 1;
        }
        proof {
            lemma_lookup_absent(self.entries@, account);
        }
        0
    }

    /// Record `value` as the balance of `account`, creating its entry if
    /// there is none yet. Every other account's balance is untouched, and
    /// the sum moves exactly by the difference written.
    pub(crate) fn set(&mut self, account: u64, value: u64)
        requires
            old(self).wf(),
        ensures
            final(self).wf(),
            final(self).spec_balance_of(account) == value,
            forall|a: u64| a != account
                ==> final(self).spec_balance_of(a) == old(self).spec_balance_of(a),
            final(self).spec_sum()
                == old(self).spec_sum() - old(self).spec_balance_of(account) + value,
            final(self).has_account(account),
            forall|a: u64| old(self).has_account(a) ==> final(self).has_account(a),
    {
        let ghost s = self.entries@;
        let n: usize = self.entries.len();
        let mut i: usize = 0;
        while i < n
            invariant
                self.entries@ == s,
                old(self).entries() == s,
                unique_keys(s),
                n == s.len(),
                i <= n,
                forall|j: int| 0 <= j < i ==> s[j].0 != account,
            decreases n - i,
        {
            if self.entries[i].0 == account {
                self.entries[i] = (account, value);
                proof {
                    let t = self.entries@;
                    assert(t == s.update(i as int, (account, value)));
                    assert(s[i as int].0 == account);
                    assert forall|k: int| 0 <= k < t.len() implies t[k].0 == s[k].0 by {}
                    assert forall|x: int, y: int| 0 <= x < y < t.len()
                        implies t[x].0 != t[y].0 by {
                        assert(s[x].0 != s[y].0);
                    }
                    lemma_lookup_first_match(t, account, i as int);
                    lemma_lookup_first_match(s, account, i as int);
                    assert forall|a: u64| a != account
                        implies lookup(t, a) == lookup(s, a) by {
                        lemma_lookup_update_other(s, i as int, value, a);
                        assert((s[i as int].0, value) == (account, value));
                    }
                    lemma_sum_update(s, i as int, (account, value));
                    assert(t[i as int].0 == account);
                    assert forall|a: u64| has_key(s, a) implies has_key(t, a) by {
                        let k = choose|k: int| 0 <= k < s.len() && s[k].0 == a;
                        assert(t[k].0 == a);
                    }
                }
                return;
            }
            i += 1;
        }
        self.entries.push((account, value));
        proof {
            let t = self.entries@;
            assert(t == s.push((account, value)));
            lemma_lookup_absent(s, account);
            assert(t[s.len() as int].0 == account);
            lemma_lookup_first_match(t, account, s.len() as int);
            assert forall|a: u64| a != account
                implies lookup(t, a) == lookup(s, a) by {
                lemma_lookup_push_other(s, (account, value), a);
            }
            lemma_sum_push(s, (account, value));
            assert forall|a: u64| has_key(s, a) implies has_key(t, a) by {
                let k = choose|k: int| 0 <= k < s.len() && s[k].0 == a;
                assert(t[k].0 == a);
            }
        }
    }
}

} // verus!
