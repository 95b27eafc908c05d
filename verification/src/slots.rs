//! Sorted slot sequences and the multiset accounting of merged update batches.

use vstd::multiset::Multiset;
use vstd::prelude::*;

verus! {

/// A slot number: a position in the ledger's totally ordered block sequence.
pub type Slot = u64;

/// A sequence of slots in ascending order, duplicates allowed.
pub open spec fn sorted_slots(s: Seq<Slot>) -> bool {
    forall|i: int, j: int| 0 <= i <= j < s.len() ==> s[i] <= s[j]
}

/// All slots carried by a sequence of batches, with multiplicity.
pub open spec fn batches_multiset(batches: Seq<Seq<Slot>>) -> Multiset<Slot>
    decreases batches.len(),
{
    if batches.len() == 0 {
        Multiset::<Slot>::empty()
    } else {
        batches.first().to_multiset().add(batches_multiset(batches.drop_first()))
    }
}

/// Appending one more batch adds exactly that batch's slots to the combined
/// multiset.
pub proof fn lemma_batches_multiset_push(batches: Seq<Seq<Slot>>, b: Seq<Slot>)
    ensures
        batches_multiset(batches.push(b)) == batches_multiset(batches).add(b.to_multiset()),
    decreases batches.len(),
{
    broadcast use vstd::multiset::group_multiset_axioms;

    if batches.len() == 0 {
        assert(batches.push(b).drop_first() =~= Seq::<Seq<Slot>>::empty());
        assert(batches_multiset(Seq::<Seq<Slot>>::empty()) == Multiset::<Slot>::empty());
        assert(batches.push(b).first() == b);
        assert(batches_multiset(batches.push(b)) == b.to_multiset().add(
            Multiset::<Slot>::empty(),
        ));
        assert(batches_multiset(batches.push(b)) =~= batches_multiset(batches).add(
            b.to_multiset(),
        ));
    } else {
        lemma_batches_multiset_push(batches.drop_first(), b);
        assert(batches.push(b).drop_first() =~= batches.drop_first().push(b));
        assert(batches.push(b).first() == batches.first());
        assert(batches_multiset(batches.push(b)) == batches.first().to_multiset().add(
            batches_multiset(batches.drop_first()).add(b.to_multiset()),
        ));
        assert(batches_multiset(batches.push(b)) =~= batches_multiset(batches).add(
            b.to_multiset(),
        ));
    }
}

/// A slot contained in one of the batches is in the combined multiset.
proof fn lemma_batches_multiset_contains(batches: Seq<Seq<Slot>>, j: int, s: Slot)
    requires
        0 <= j < batches.len(),
        batches[j].contains(s),
    ensures
        batches_multiset(batches).count(s) > 0,
    decreases batches.len(),
{
    broadcast use vstd::seq_lib::group_to_multiset_ensures;
    broadcast use vstd::multiset::group_multiset_axioms;

    if j == 0 {
        assert(batches.first().to_multiset().count(s) > 0);
    } else {
        assert(batches.drop_first()[j - 1] == batches[j]);
        lemma_batches_multiset_contains(batches.drop_first(), j - 1, s);
    }
}

/// No slot is lost by coalescing: a slot that occurs in the seed batch, or
/// in any batch drained from the channel, occurs in the combined multiset of
/// slots — and so in the advertised sequence, which carries exactly that
/// multiset.
pub proof fn lemma_no_slot_lost(seed: Seq<Slot>, drained: Seq<Seq<Slot>>, s: Slot)
    requires
        seed.contains(s) || exists|j: int|
            0 <= j < drained.len() && #[trigger] drained[j].contains(s),
    ensures
        seed.to_multiset().add(batches_multiset(drained)).count(s) > 0,
{
    broadcast use vstd::seq_lib::group_to_multiset_ensures;
    broadcast use vstd::multiset::group_multiset_axioms;

    if seed.contains(s) {
        assert(seed.to_multiset().count(s) > 0);
    } else {
        let j = choose|j: int| 0 <= j < drained.len() && #[trigger] drained[j].contains(s);
        lemma_batches_multiset_contains(drained, j, s);
    }
}

/// An ascending slot sequence is determined by its multiset: two sorted
/// sequences carrying the same slots with the same multiplicities are equal.
/// So the contracts that promise a sorted result with a given multiset pin
/// that result uniquely.
pub proof fn lemma_sorted_slots_unique(a: Seq<Slot>, b: Seq<Slot>)
    requires
        sorted_slots(a),
        sorted_slots(b),
        a.to_multiset() == b.to_multiset(),
    ensures
        a == b,
    decreases a.len(),
{
    broadcast use vstd::seq_lib::group_to_multiset_ensures;
    broadcast use vstd::multiset::group_multiset_axioms;

    assert(a.to_multiset().len() == a.len());
    assert(b.to_multiset().len() == b.len());
    if a.len() == 0 {
        assert(a =~= b);
    } else {
        let x = a.last();
        let y = b.last();
        assert(a.to_multiset().count(x) > 0);
        assert(b.contains(x));
        let i = choose|i: int| 0 <= i < b.len() && b[i] == x;
        assert(x <= y);
        assert(b.to_multiset().count(y) > 0);
        assert(a.contains(y));
        let j = choose|j: int| 0 <= j < a.len() && a[j] == y;
        assert(y <= x);
        assert(a.remove(a.len() - 1).to_multiset() == a.to_multiset().remove(x));
        assert(b.remove(b.len() - 1).to_multiset() == b.to_multiset().remove(y));
        assert(a.drop_last() =~= a.remove(a.len() - 1));
        assert(b.drop_last() =~= b.remove(b.len() - 1));
        assert(a.drop_last().to_multiset() == b.drop_last().to_multiset());
        lemma_sorted_slots_unique(a.drop_last(), b.drop_last());
        assert(a =~= a.drop_last().push(x));
        assert(b =~= b.drop_last().push(y));
        assert(a == b);
    }
}

/// Inserts `x` into a slot sequence that is already in ascending order,
/// keeping the order and adding exactly one occurrence of `x`.
fn sorted_insert(v: &mut Vec<Slot>, x: Slot)
    requires
        sorted_slots(old(v)@),
    ensures
        sorted_slots(final(v)@),
        final(v)@.to_multiset() == old(v)@.to_multiset().insert(x),
        final(v)@.len() == old(v)@.len() + 1,
{
    broadcast use vstd::seq_lib::group_to_multiset_ensures;

    let mut i: usize = 0;
    while i < v.len() && v[i] <= x
        invariant
            i <= v@.len(),
            sorted_slots(v@),
            forall|k: int| 0 <= k < i ==> v@[k] <= x,
            v@ == old(v)@,
        decreases v@.len() - i,
    {
        i += 1;
    }
    proof {
        old(v)@.insert_ensures(i as int, x);
    }
    v.insert(i, x);
    assert(sorted_slots(v@)) by {
        assert forall|a: int, b: int| 0 <= a <= b < v@.len() implies v@[a] <= v@[b] by {
            old(v)@.insert_ensures(i as int, x);
        }
    }
}

/// Sorts a batch of slots into ascending order. The result carries exactly
/// the slots of the input, with multiplicity: nothing is dropped, nothing is
/// added, and duplicates are preserved.
pub fn sort_slots(slots: Vec<Slot>) -> (r: Vec<Slot>)
    ensures
        sorted_slots(r@),
        r@.to_multiset() == slots@.to_multiset(),
        r@.len() == slots@.len(),
{
    broadcast use vstd::seq_lib::group_to_multiset_ensures;
    broadcast use vstd::multiset::group_multiset_axioms;

    let mut r: Vec<Slot> = Vec::new();
    let mut i: usize = 0;
    while i < slots.len()
        invariant
            i <= slots@.len(),
            sorted_slots(r@),
            r@.to_multiset() == slots@.take(i as int).to_multiset(),
            r@.len() == i,
        decreases slots@.len() - i,
    {
        sorted_insert(&mut r, slots[i]);
        proof {
            let k = i as int;
            assert(slots@.take(k + 1) =~= slots@.take(k).push(slots@[k]));
            vstd::seq_lib::to_multiset_build::<Slot>(slots@.take(k), slots@[k]);
        }
        i += 1;
    }
    proof {
        assert(slots@.take(slots@.len() as int) =~= slots@);
    }
    r
}

} // verus!
