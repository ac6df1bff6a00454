use vstd::prelude::*;

use crate::address::Address;
use crate::uint::U256;

verus! {

/// A key of a [`Table`]: a plain value whose equality can be decided at run
/// time.
pub trait TableKey: Copy + Sized {
    fn key_eq(&self, other: &Self) -> (r: bool)
        ensures
            r == (*self == *other),
    ;
}

impl TableKey for Address {
    fn key_eq(&self, other: &Self) -> (r: bool) {
        self.same(other)
    }
}

impl TableKey for U256 {
    fn key_eq(&self, other: &Self) -> (r: bool) {
        self.same(other)
    }
}

/// The map that a list of entries describes; a later entry overrides an
/// earlier one with the same key.
pub open spec fn map_of<K, V>(s: Seq<(K, V)>) -> Map<K, V>
    decreases s.len(),
{
    if s.len() == 0 {
        Map::empty()
    } else {
        map_of(s.drop_last()).insert(s.last().0, s.last().1)
    }
}

/// No key occurs twice.
pub open spec fn keys_unique<K, V>(s: Seq<(K, V)>) -> bool {
    forall|i: int, j: int| 0 <= i < j < s.len() ==> s[i].0 != s[j].0
}

/// A key that no entry holds is absent from the map.
pub proof fn lemma_map_of_absent<K, V>(s: Seq<(K, V)>, k: K)
    requires
        forall|i: int| 0 <= i < s.len() ==> s[i].0 != k,
    ensures
        !map_of(s).contains_key(k),
    decreases s.len(),
{
    if s.len() > 0 {
        lemma_map_of_absent(s.drop_last(), k);
    }
}

/// With unique keys, each entry gives the map's value at its key.
pub proof fn lemma_map_of_at<K, V>(s: Seq<(K, V)>, i: int)
    requires
        keys_unique(s),
        0 <= i < s.len(),
    ensures
        map_of(s).contains_key(s[i].0),
        map_of(s)[s[i].0] == s[i].1,
    decreases s.len(),
{
    if i < s.len() - 1 {
        lemma_map_of_at(s.drop_last(), i);
    }
}

/// Overwriting the value of an entry in place writes that key in the map.
pub proof fn lemma_map_of_update<K, V>(s: Seq<(K, V)>, i: int, v: V)
    requires
        keys_unique(s),
        0 <= i < s.len(),
    ensures
        map_of(s.update(i, (s[i].0, v))) == map_of(s).insert(s[i].0, v),
    decreases s.len(),
{
    let t = s.update(i, (s[i].0, v));
    if i == s.len() - 1 {
        assert(t.drop_last() =~= s.drop_last());
        assert(map_of(t) =~= map_of(s).insert(s[i].0, v));
    } else {
        assert(t.drop_last() =~= s.drop_last().update(i, (s[i].0, v)));
        lemma_map_of_update(s.drop_last(), i, v);
        assert(map_of(t) =~= map_of(s).insert(s[i].0, v));
    }
}

/// A finite map held as a list of entries with unique keys.
pub struct Table<K, V> {
    entries: Vec<(K, V)>,
}

impl<K, V> View for Table<K, V> {
    type V = Map<K, V>;

    closed spec fn view(&self) -> Map<K, V> {
        map_of(self.entries@)
    }
}

impl<K: TableKey, V: Copy> Table<K, V> {
    /// The entries, in the order in which their keys were first written.
    pub closed spec fn entries(self) -> Seq<(K, V)> {
        self.entries@
    }

    pub closed spec fn wf(self) -> bool {
        keys_unique(self.entries@)
    }

    pub fn new() -> (r: Table<K, V>)
        ensures
            r.wf(),
            r@ == Map::<K, V>::empty(),
            r.entries() == Seq::<(K, V)>::empty(),
    {
        Table { entries: Vec::new() }
    }

    /// The position of the entry with key `k`, if any.
    fn find(&self, k: &K) -> (r: Option<usize>)
        ensures
            match r {
                Some(i) => i < self.entries@.len() && self.entries@[i as int].0 == *k,
                None => forall|i: int| 0 <= i < self.entries@.len() ==> self.entries@[i].0 != *k,
            },
    {
        let mut i: usize = 0;
        while i < self.entries.len()
            invariant
                i <= self.entries@.len(),
                forall|j: int| 0 <= j < i ==> self.entries@[j].0 != *k,
            decreases self.entries@.len() - i,
        {
            if self.entries[i].0.key_eq(k) {
                return Some(i);
            }
            i = i + 1;
        }
        None
    }

    pub fn get(&self, k: &K) -> (r: Option<V>)
        requires
            self.wf(),
        ensures
            r == (if self@.contains_key(*k) {
                Some(self@[*k])
            } else {
                None
            }),
    {
        match self.find(k) {
            Some(i) => {
                proof {
                    lemma_map_of_at(self.entries@, i as int);
                }
                Some(self.entries[i].1)
            },
            None => {
                proof {
                    lemma_map_of_absent(self.entries@, *k);
                }
                None
            },
        }
    }

    /// Writes `v` at `k`: in place where `k` has an entry, else as a new last
    /// entry.
    pub fn insert(&mut self, k: K, v: V)
        requires
            old(self).wf(),
        ensures
            final(self).wf(),
            final(self)@ == old(self)@.insert(k, v),
            old(self)@.contains_key(k) ==> exists|i: int|
                0 <= i < old(self).entries().len() && old(self).entries()[i].0 == k
                    && #[trigger] old(self).entries().update(i, (k, v)) == final(self).entries(),
            !old(self)@.contains_key(k) ==> final(self).entries() == old(self).entries().push(
                (k, v),
            ),
    {
        match self.find(&k) {
            Some(i) => {
                proof {
                    lemma_map_of_at(self.entries@, i as int);
                    lemma_map_of_update(self.entries@, i as int, v);
                }
                self.entries.set(i, (k, v));
                assert(old(self).entries().update(i as int, (k, v)) == self.entries());
            },
            None => {
                proof {
                    lemma_map_of_absent(self.entries@, k);
                }
                self.entries.push((k, v));
                assert(self.entries@.drop_last() =~= old(self).entries@);
            },
        }
    }
}

} // verus!

verus! {

/// The sum of the amounts of a list of entries.
pub open spec fn sum_amounts<K>(s: Seq<(K, U256)>) -> nat
    decreases s.len(),
{
    if s.len() == 0 {
        0
    } else {
        sum_amounts(s.drop_last()) + s.last().1.value()
    }
}

proof fn lemma_sum_ge_entry<K>(s: Seq<(K, U256)>, i: int)
    requires
        0 <= i < s.len(),
    ensures
        s[i].1.value() <= sum_amounts(s),
    decreases s.len(),
{
    if i < s.len() - 1 {
        lemma_sum_ge_entry(s.drop_last(), i);
    }
}

proof fn lemma_sum_update<K>(s: Seq<(K, U256)>, i: int, e: (K, U256))
    requires
        0 <= i < s.len(),
    ensures
        sum_amounts(s.update(i, e)) + s[i].1.value() == sum_amounts(s) + e.1.value(),
    decreases s.len(),
{
    let t = s.update(i, e);
    if i == s.len() - 1 {
        assert(t.drop_last() =~= s.drop_last());
    } else {
        assert(t.drop_last() =~= s.drop_last().update(i, e));
        lemma_sum_update(s.drop_last(), i, e);
    }
}

/// The amount stored at `k`, zero where there is none.
pub open spec fn amount_at<K>(m: Map<K, U256>, k: K) -> nat {
    if m.contains_key(k) {
        m[k].value()
    } else {
        0
    }
}

impl<K: TableKey> Table<K, U256> {
    /// The sum of all stored amounts.
    pub closed spec fn total(self) -> nat {
        sum_amounts(self.entries@)
    }

    /// A table without entries sums to zero.
    pub proof fn lemma_total_empty(self)
        requires
            self.entries() == Seq::<(K, U256)>::empty(),
        ensures
            self.total() == 0,
    {
    }

    /// No stored amount exceeds the sum of all of them.
    pub proof fn lemma_total_ge(self, k: K)
        requires
            self.wf(),
        ensures
            amount_at(self@, k) <= self.total(),
    {
        if exists|i: int| 0 <= i < self.entries@.len() && self.entries@[i].0 == k {
            let i = choose|i: int| 0 <= i < self.entries@.len() && self.entries@[i].0 == k;
            lemma_map_of_at(self.entries@, i);
            lemma_sum_ge_entry(self.entries@, i);
        } else {
            lemma_map_of_absent(self.entries@, k);
        }
    }

    /// The amount stored at `k`, zero where there is none.
    pub fn amount(&self, k: &K) -> (r: U256)
        requires
            self.wf(),
        ensures
            r.value() == amount_at(self@, *k),
    {
        match self.get(k) {
            Some(v) => v,
            None => U256::zero(),
        }
    }

    /// Writes an amount, keeping account of the sum.
    pub fn set_amount(&mut self, k: K, v: U256)
        requires
            old(self).wf(),
        ensures
            final(self).wf(),
            final(self)@ == old(self)@.insert(k, v),
            final(self).total() + amount_at(old(self)@, k) == old(self).total() + v.value(),
    {
        let ghost before = self.entries@;
        self.insert(k, v);
        proof {
            if old(self)@.contains_key(k) {
                let i = choose|i: int|
                    0 <= i < before.len() && before[i].0 == k && #[trigger] before.update(
                        i,
                        (k, v),
                    ) == self.entries@;
                lemma_map_of_at(before, i);
                lemma_sum_update(before, i, (k, v));
            } else {
                assert(self.entries@.drop_last() =~= before);
            }
        }
    }
}

} // verus!

verus! {

/// The sum of the values that `m` gives to the keys listed in `s`.
pub open spec fn sum_of<K>(m: Map<K, nat>, s: Seq<K>) -> nat
    decreases s.len(),
{
    if s.len() == 0 {
        0
    } else {
        sum_of(m, s.drop_last()) + m[s.last()]
    }
}

proof fn lemma_sum_of_agree<K>(m1: Map<K, nat>, m2: Map<K, nat>, s: Seq<K>)
    requires
        forall|i: int| 0 <= i < s.len() ==> m1[s[i]] == m2[s[i]],
    ensures
        sum_of(m1, s) == sum_of(m2, s),
    decreases s.len(),
{
    if s.len() > 0 {
        lemma_sum_of_agree(m1, m2, s.drop_last());
    }
}

/// The keys of a list of entries, in order.
pub open spec fn keys_of<K, V>(s: Seq<(K, V)>) -> Seq<K> {
    s.map_values(|e: (K, V)| e.0)
}

proof fn lemma_sum_amounts_is_sum_of<K>(s: Seq<(K, U256)>)
    requires
        keys_unique(s),
    ensures
        sum_amounts(s) == sum_of(map_of(s).map_values(|v: U256| v.value()), keys_of(s)),
        keys_of(s).no_duplicates(),
        forall|k: K| map_of(s).contains_key(k) <==> keys_of(s).contains(k),
    decreases s.len(),
{
    let f = |v: U256| v.value();
    if s.len() > 0 {
        let t = s.drop_last();
        lemma_sum_amounts_is_sum_of(t);
        let k = s.last().0;
        assert(keys_of(t).len() == t.len());
        assert(keys_of(s).drop_last() =~= keys_of(t));
        assert(keys_of(s).last() == k);
        assert forall|i: int| 0 <= i < keys_of(t).len() implies map_of(s).map_values(f)[keys_of(
            t,
        )[i]] == map_of(t).map_values(f)[keys_of(t)[i]] by {
            assert(t[i].0 != k);
            lemma_map_of_at(t, i);
        }
        lemma_sum_of_agree(map_of(s).map_values(f), map_of(t).map_values(f), keys_of(t));
        assert forall|k2: K| map_of(s).contains_key(k2) <==> keys_of(s).contains(k2) by {
            if k2 == k {
                assert(keys_of(s)[s.len() - 1] == k);
            } else {
                if keys_of(s).contains(k2) {
                    let i = choose|i: int| 0 <= i < keys_of(s).len() && keys_of(s)[i] == k2;
                    assert(i < t.len());
                    assert(keys_of(t)[i] == k2);
                    assert(keys_of(t).contains(k2));
                }
                if map_of(s).contains_key(k2) {
                    assert(map_of(t).contains_key(k2));
                    assert(keys_of(t).contains(k2));
                    let i = choose|i: int| 0 <= i < keys_of(t).len() && keys_of(t)[i] == k2;
                    assert(keys_of(s)[i] == k2);
                }
            }
        }
    } else {
        assert(map_of(s) =~= Map::<K, U256>::empty());
    }
}

impl<K: TableKey> Table<K, U256> {
    /// The sum of all stored amounts is the sum, over the stored keys (each
    /// listed once), of the amount at each.
    pub proof fn lemma_total_is_sum(self)
        requires
            self.wf(),
        ensures
            self.total() == sum_of(self@.map_values(|v: U256| v.value()), keys_of(self.entries())),
            keys_of(self.entries()).no_duplicates(),
            forall|k: K| self@.contains_key(k) <==> keys_of(self.entries()).contains(k),
    {
        lemma_sum_amounts_is_sum_of(self.entries@);
    }
}

} // verus!
