//! The allowance ledger: (owner, spender) pair to delegated limit, default zero.

use vstd::prelude::*;

use crate::store::lemma_lookup_absent;
use crate::store::lemma_lookup_first_match;
use crate::store::lemma_lookup_push_other;
use crate::store::lemma_lookup_update_other;
use crate::store::has_key;
use crate::store::lookup;
use crate::store::unique_keys;

verus! {

/// Maps `(owner, spender)` pairs to the amount the owner permits the
/// spender to move on the owner's behalf.
///
/// A pair without an entry is allowed zero; entries persist once created,
/// including at zero. Writes stay within the crate so that only the
/// transfer engine mutates the ledger.
pub struct AllowanceLedger {
    entries: Vec<((u64, u64), u64)>,
}

impl AllowanceLedger {
    /// The entry sequence behind the ledger, for specification use.
    pub closed spec fn entries(self) -> Seq<((u64, u64), u64)> {
        self.entries@
    }

    /// Each (owner, spender) pair has at most one entry.
    pub open spec fn wf(self) -> bool {
        unique_keys(self.entries())
    }

    /// The amount `spender` may still move out of `owner`'s balance; zero
    /// when the pair is unseen.
    pub open spec fn spec_allowance(self, owner: u64, spender: u64) -> u64 {
        lookup(self.entries(), (owner, spender))
    }

    /// Whether the pair `(owner, spender)` has an entry of its own.
    pub open spec fn has_pair(self, owner: u64, spender: u64) -> bool {
        has_key(self.entries(), (owner, spender))
    }

    /// An empty ledger: every pair is allowed zero.
    pub fn new() -> (r: AllowanceLedger)
        ensures
            r.wf(),
            r.entries().len() == 0,
            forall|o: u64, s: u64| r.spec_allowance(o, s) == 0,
    {
        AllowanceLedger { entries: Vec::new() }
    }

    /// The allowance granted by `owner` to `spender`: zero for an unseen
    /// pair. A pure read; it never fails and never alters the ledger.
    pub fn allowance(&self, owner: u64, spender: u64) -> (r: u64)
        ensures
            r == self.spec_allowance(owner, spender),
    {
        let n: usize = self.entries.len();
        let mut i: usize = 0;
        while i < n
            invariant
                n == self.entries@.len(),
                i <= n,
                forall|j: int| 0 <= j < i ==> self.entries@[j].0 != (owner, spender),
            decreases n - i,
        {
            let key = self.entries[i].0;
            if key.0 == owner && key.1 == spender {
                proof {
                    assert(self.entries@[i as int].0 == (owner, spender));
                    lemma_lookup_first_match(self.entries@, (owner, spender), i as int);
                }
                return self.entries[i].1;
            }
            i += 1;
        }
        proof {
            lemma_lookup_absent(self.entries@, (owner, spender));
        }
        0
    }

    /// Record `value` as the allowance of `(owner, spender)`, creating the
    /// pair's entry if there is none yet. Every other pair's allowance is
    /// untouched.
    pub(crate) fn set(&mut self, owner: u64, spender: u64, value: u64)
        requires
            old(self).wf(),
        ensures
            final(self).wf(),
            final(self).spec_allowance(owner, spender) == value,
            forall|o: u64, s: u64| (o, s) != (owner, spender)
                ==> final(self).spec_allowance(o, s) == old(self).spec_allowance(o, s),
            final(self).has_pair(owner, spender),
            forall|o: u64, s: u64| old(self).has_pair(o, s) ==> final(self).has_pair(o, s),
    {
        let ghost s0 = self.entries@;
        let ghost key = (owner, spender);
        let n: usize = self.entries.len();
        let mut i: usize = 0;
        while i < n
            invariant
                self.entries@ == s0,
                old(self).entries() == s0,
                unique_keys(s0),
                key == (owner, spender),
                n == s0.len(),
                i <= n,
                forall|j: int| 0 <= j < i ==> s0[j].0 != key,
            decreases n - i,
        {
            let k = self.entries[i].0;
            if k.0 == owner && k.1 == spender {
                self.entries[i] = ((owner, spender), value);
                proof {
                    let t = self.entries@;
                    assert(t == s0.update(i as int, (key, value)));
                    assert(s0[i as int].0 == key);
                    assert forall|m: int| 0 <= m < t.len() implies t[m].0 == s0[m].0 by {}
                    assert forall|x: int, y: int| 0 <= x < y < t.len()
                        implies t[x].0 != t[y].0 by {
                        assert(s0[x].0 != s0[y].0);
                    }
                    lemma_lookup_first_match(t, key, i as int);
                    assert forall|o: u64, sp: u64| (o, sp) != key
                        implies lookup(t, (o, sp)) == lookup(s0, (o, sp)) by {
                        lemma_lookup_update_other(s0, i as int, value, (o, sp));
                        assert((s0[i as int].0, value) == (key, value));
                    }
                    assert(t[i as int].0 == key);
                    assert forall|o: u64, sp: u64| has_key(s0, (o, sp))
                        implies has_key(t, (o, sp)) by {
                        let m = choose|m: int| 0 <= m < s0.len() && s0[m].0 == (o, sp);
                        assert(t[m].0 == (o, sp));
                    }
                }
                return;
            }
            i += 1;
        }
        self.entries.push(((owner, spender), value));
        proof {
            let t = self.entries@;
            assert(t == s0.push((key, value)));
            lemma_lookup_absent(s0, key);
            assert(t[s0.len() as int].0 == key);
            lemma_lookup_first_match(t, key, s0.len() as int);
            assert forall|o: u64, sp: u64| (o, sp) != key
                implies lookup(t, (o, sp)) == lookup(s0, (o, sp)) by {
                lemma_lookup_push_other(s0, (key, value), (o, sp));
            }
            assert forall|o: u64, sp: u64| has_key(s0, (o, sp))
                implies has_key(t, (o, sp)) by {
                let m = choose|m: int| 0 <= m < s0.len() && s0[m].0 == (o, sp);
                assert(t[m].0 == (o, sp));
            }
        }
    }
}

} // verus!
