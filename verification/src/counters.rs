use vstd::prelude::*;

use crate::address::addr_eq;
use crate::address::Address;

verus! {

/// The amount recorded for `key` in an association list; an absent key
/// reads as zero.
pub open spec fn lookup_amount(entries: Seq<(Address, u128)>, key: Seq<u8>) -> u128
    decreases entries.len(),
{
    if entries.len() == 0 {
        0u128
    } else if entries[0].0@ == key {
        entries[0].1
    } else {
        lookup_amount(entries.drop_first(), key)
    }
}

/// The sum of all recorded amounts.
pub open spec fn sum_amounts(entries: Seq<(Address, u128)>) -> int
    decreases entries.len(),
{
    if entries.len() == 0 {
        0
    } else {
        entries[0].1 + sum_amounts(entries.drop_first())
    }
}

/// No address appears under two entries.
pub open spec fn unique_keys(entries: Seq<(Address, u128)>) -> bool {
    forall|i: int, j: int| 0 <= i < j < entries.len() ==> entries[i].0@ != entries[j].0@
}

/// A key that no entry holds reads as zero.
pub proof fn lemma_lookup_absent(entries: Seq<(Address, u128)>, key: Seq<u8>)
    requires
        forall|j: int| 0 <= j < entries.len() ==> entries[j].0@ != key,
    ensures
        lookup_amount(entries, key) == 0,
    decreases entries.len(),
{
    if entries.len() > 0 {
        assert(forall|j: int|
            0 <= j < entries.drop_first().len() ==> entries.drop_first()[j].0@ != key);
        lemma_lookup_absent(entries.drop_first(), key);
    }
}

/// The first entry holding `key` decides what `key` reads as.
pub proof fn lemma_lookup_found(entries: Seq<(Address, u128)>, key: Seq<u8>, k: int)
    requires
        0 <= k < entries.len(),
        entries[k].0@ == key,
        forall|j: int| 0 <= j < k ==> entries[j].0@ != key,
    ensures
        lookup_amount(entries, key) == entries[k].1,
    decreases k,
{
    if k > 0 {
        assert(forall|j: int|
            0 <= j < k - 1 ==> entries.drop_first()[j].0@ != key);
        lemma_lookup_found(entries.drop_first(), key, k - 1);
    }
}

/// Replacing entry `k` with one under the same address leaves every other
/// address reading as before.
pub proof fn lemma_lookup_update_other(
    entries: Seq<(Address, u128)>,
    k: int,
    v: (Address, u128),
    a: Seq<u8>,
)
    requires
        0 <= k < entries.len(),
        v.0@ == entries[k].0@,
        a != entries[k].0@,
    ensures
        lookup_amount(entries.update(k, v), a) == lookup_amount(entries, a),
    decreases k,
{
    let upd = entries.update(k, v);
    if k == 0 {
        assert(upd.drop_first() =~= entries.drop_first());
    } else {
        assert(upd[0] == entries[0]);
        assert(upd.drop_first() =~= entries.drop_first().update(k - 1, v));
        lemma_lookup_update_other(entries.drop_first(), k - 1, v, a);
    }
}

/// Replacing entry `k` changes the sum by the difference of the amounts.
pub proof fn lemma_sum_update(entries: Seq<(Address, u128)>, k: int, v: (Address, u128))
    requires
        0 <= k < entries.len(),
    ensures
        sum_amounts(entries.update(k, v)) == sum_amounts(entries) - entries[k].1 + v.1,
    decreases k,
{
    let upd = entries.update(k, v);
    if k == 0 {
        assert(upd.drop_first() =~= entries.drop_first());
    } else {
        assert(upd[0] == entries[0]);
        assert(upd.drop_first() =~= entries.drop_first().update(k - 1, v));
        lemma_sum_update(entries.drop_first(), k - 1, v);
    }
}

/// Appending an entry leaves every other address reading as before.
pub proof fn lemma_lookup_push_other(entries: Seq<(Address, u128)>, v: (Address, u128), a: Seq<u8>)
    requires
        a != v.0@,
    ensures
        lookup_amount(entries.push(v), a) == lookup_amount(entries, a),
    decreases entries.len(),
{
    let ext = entries.push(v);
    if entries.len() == 0 {
        assert(ext[0] == v);
        assert(ext.drop_first() =~= Seq::<(Address, u128)>::empty());
        assert(lookup_amount(ext.drop_first(), a) == 0);
    } else {
        assert(ext[0] == entries[0]);
        assert(ext.drop_first() =~= entries.drop_first().push(v));
        lemma_lookup_push_other(entries.drop_first(), v, a);
    }
}

/// Appending an entry adds its amount to the sum.
pub proof fn lemma_sum_push(entries: Seq<(Address, u128)>, v: (Address, u128))
    ensures
        sum_amounts(entries.push(v)) == sum_amounts(entries) + v.1,
    decreases entries.len(),
{
    let ext = entries.push(v);
    if entries.len() == 0 {
        assert(ext[0] == v);
        assert(ext.drop_first() =~= Seq::<(Address, u128)>::empty());
        assert(sum_amounts(ext.drop_first()) == 0);
    } else {
        assert(ext[0] == entries[0]);
        assert(ext.drop_first() =~= entries.drop_first().push(v));
        lemma_sum_push(entries.drop_first(), v);
    }
}

/// No single address ever reads as more than the sum of all amounts: each
/// per-caller counter is bounded by the global counter whenever the global
/// counter equals the sum of the per-caller counters.
pub proof fn lemma_lookup_le_sum(entries: Seq<(Address, u128)>, a: Seq<u8>)
    ensures
        0 <= sum_amounts(entries),
        lookup_amount(entries, a) <= sum_amounts(entries),
    decreases entries.len(),
{
    if entries.len() > 0 {
        lemma_lookup_le_sum(entries.drop_first(), a);
    }
}

/// The position of the first entry holding `key`, if any.
pub fn find_key(entries: &Vec<(Address, u128)>, key: &Address) -> (r: Option<usize>)
    ensures
        match r {
            Some(k) => k < entries@.len() && entries@[k as int].0@ == key@ && forall|j: int|
                0 <= j < k ==> entries@[j].0@ != key@,
            None => forall|j: int| 0 <= j < entries@.len() ==> entries@[j].0@ != key@,
        },
{
    let mut i: usize = 0;
    while i < entries.len()
        invariant
            i <= entries@.len(),
            forall|j: int| 0 <= j < i ==> entries@[j].0@ != key@,
        decreases entries@.len() - i,
    {
        if addr_eq(&entries[i].0, key) {
            return Some(i);
        }
        i = i + 1;
    }
    None
}

/// Looks `key` up in `entries`; an absent key reads as zero.
pub fn lookup(entries: &Vec<(Address, u128)>, key: &Address) -> (r: u128)
    ensures
        r == lookup_amount(entries@, key@),
{
    let mut i: usize = 0;
    while i < entries.len()
        invariant
            i <= entries@.len(),
            forall|j: int| 0 <= j < i ==> entries@[j].0@ != key@,
        decreases entries@.len() - i,
    {
        if addr_eq(&entries[i].0, key) {
            proof {
                lemma_lookup_found(entries@, key@, i as int);
            }
            return entries[i].1;
        }
        i = i + 1;
    }
    proof {
        lemma_lookup_absent(entries@, key@);
    }
    0
}

} // verus!
