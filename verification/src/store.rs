//! Keyed entry sequences: the common model behind the two ledgers.
//!
//! Both ledgers keep their entries as a vector of `(key, value)` pairs with
//! unique keys, where a missing key means zero. This module gives that
//! representation its mathematical reading — `lookup`, `sum_values` and
//! `unique_keys` over the entry sequence — and the lemmas that relate those
//! readings across updates and appends.

use vstd::prelude::*;

verus! {

/// The value that an entry sequence assigns to `key`: the value of the
/// first entry with that key, or zero when there is none.
pub open spec fn lookup<K>(s: Seq<(K, u64)>, key: K) -> u64
    decreases s.len(),
{
    if s.len() == 0 {
        0u64
    } else if s[0].0 == key {
        s[0].1
    } else {
        lookup(s.drop_first(), key)
    }
}

/// The sum of all values in an entry sequence.
pub open spec fn sum_values<K>(s: Seq<(K, u64)>) -> int
    decreases s.len(),
{
    if s.len() == 0 {
        0
    } else {
        s[0].1 + sum_values(s.drop_first())
    }
}

/// No two entries share a key.
pub open spec fn unique_keys<K>(s: Seq<(K, u64)>) -> bool {
    forall|i: int, j: int|
        #![trigger s[i].0, s[j].0]
        0 <= i < j < s.len() ==> s[i].0 != s[j].0
}

/// Whether some entry carries `key`.
pub open spec fn has_key<K>(s: Seq<(K, u64)>, key: K) -> bool {
    exists|i: int| 0 <= i < s.len() && #[trigger] s[i].0 == key
}

/// A key that no entry carries looks up to zero.
pub proof fn lemma_lookup_absent<K>(s: Seq<(K, u64)>, key: K)
    requires
        !has_key(s, key),
    ensures
        lookup(s, key) == 0,
    decreases s.len(),
{
    if s.len() > 0 {
        assert(s[0].0 != key);
        assert(forall|i: int|
            0 <= i < s.drop_first().len() ==> s.drop_first()[i] == s[i + 1]);
        lemma_lookup_absent(s.drop_first(), key);
    }
}

/// An entry whose key appears nowhere earlier is the one that `lookup`
/// reads.
pub proof fn lemma_lookup_first_match<K>(s: Seq<(K, u64)>, key: K, i: int)
    requires
        0 <= i < s.len(),
        s[i].0 == key,
        forall|j: int| 0 <= j < i ==> s[j].0 != key,
    ensures
        lookup(s, key) == s[i].1,
    decreases i,
{
    if i > 0 {
        assert(s[0].0 != key);
        assert(forall|j: int|
            0 <= j < s.drop_first().len() ==> s.drop_first()[j] == s[j + 1]);
        lemma_lookup_first_match(s.drop_first(), key, i - 1);
    }
}

/// Overwriting an entry's value, keeping its key, leaves every other
/// key's lookup unchanged.
pub proof fn lemma_lookup_update_other<K>(s: Seq<(K, u64)>, i: int, v: u64, key: K)
    requires
        0 <= i < s.len(),
        s[i].0 != key,
    ensures
        lookup(s.update(i, (s[i].0, v)), key) == lookup(s, key),
    decreases s.len(),
{
    let t = s.update(i, (s[i].0, v));
    if i == 0 {
        assert(t.drop_first() =~= s.drop_first());
    } else {
        assert(t[0] == s[0]);
        if s[0].0 != key {
            assert(t.drop_first() =~= s.drop_first().update(i - 1, (s.drop_first()[i - 1].0, v)));
            lemma_lookup_update_other(s.drop_first(), i - 1, v, key);
        }
    }
}

/// Overwriting an entry's value adjusts the sum by the difference between
/// the new and the old value.
pub proof fn lemma_sum_update<K>(s: Seq<(K, u64)>, i: int, p: (K, u64))
    requires
        0 <= i < s.len(),
    ensures
        sum_values(s.update(i, p)) == sum_values(s) - s[i].1 + p.1,
    decreases i,
{
    let t = s.update(i, p);
    if i == 0 {
        assert(t.drop_first() =~= s.drop_first());
    } else {
        assert(t[0] == s[0]);
        assert(t.drop_first() =~= s.drop_first().update(i - 1, p));
        lemma_sum_update(s.drop_first(), i - 1, p);
    }
}

/// Appending an entry leaves every other key's lookup unchanged.
pub proof fn lemma_lookup_push_other<K>(s: Seq<(K, u64)>, p: (K, u64), key: K)
    requires
        p.0 != key,
    ensures
        lookup(s.push(p), key) == lookup(s, key),
    decreases s.len(),
{
    reveal_with_fuel(lookup, 3);
    if s.len() == 0 {
        assert(s.push(p)[0] == p);
        assert(s.push(p).drop_first() =~= Seq::<(K, u64)>::empty());
    } else {
        assert(s.push(p)[0] == s[0]);
        assert(s.push(p).drop_first() =~= s.drop_first().push(p));
        lemma_lookup_push_other(s.drop_first(), p, key);
    }
}

/// Appending an entry adds its value to the sum.
pub proof fn lemma_sum_push<K>(s: Seq<(K, u64)>, p: (K, u64))
    ensures
        sum_values(s.push(p)) == sum_values(s) + p.1,
    decreases s.len(),
{
    reveal_with_fuel(sum_values, 3);
    if s.len() == 0 {
        assert(s.push(p)[0] == p);
        assert(s.push(p).drop_first() =~= Seq::<(K, u64)>::empty());
    } else {
        assert(s.push(p)[0] == s[0]);
        assert(s.push(p).drop_first() =~= s.drop_first().push(p));
        lemma_sum_push(s.drop_first(), p);
    }
}

/// Every value is non-negative, so the sum is too.
pub proof fn lemma_sum_nonneg<K>(s: Seq<(K, u64)>)
    ensures
        sum_values(s) >= 0,
    decreases s.len(),
{
    if s.len() > 0 {
        lemma_sum_nonneg(s.drop_first());
    }
}

/// No single value exceeds the sum of all of them.
pub proof fn lemma_lookup_le_sum<K>(s: Seq<(K, u64)>, key: K)
    ensures
        lookup(s, key) <= sum_values(s),
    decreases s.len(),
{
    if s.len() > 0 {
        lemma_lookup_le_sum(s.drop_first(), key);
        lemma_sum_nonneg(s.drop_first());
    }
}

/// Two distinct keys' values never jointly exceed the sum.
pub proof fn lemma_two_lookups_le_sum<K>(s: Seq<(K, u64)>, k1: K, k2: K)
    requires
        k1 != k2,
    ensures
        lookup(s, k1) + lookup(s, k2) <= sum_values(s),
    decreases s.len(),
{
    if s.len() > 0 {
        if s[0].0 == k1 {
            lemma_lookup_le_sum(s.drop_first(), k2);
        } else if s[0].0 == k2 {
            lemma_lookup_le_sum(s.drop_first(), k1);
        } else {
            lemma_two_lookups_le_sum(s.drop_first(), k1, k2);
        }
    }
}

} // verus!
