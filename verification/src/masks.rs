//! Order-preserving selection of entities by a per-entity mark.
//!
//! The game keeps its moving entities (lasers, threats, particles) in
//! vectors; each phase of a tick decides, entity by entity, which ones
//! leave the board. These functions apply such a decision.

use vstd::prelude::*;

verus! {

/// The items whose mark is `false`, in their original order.
pub open spec fn kept_items<T>(items: Seq<T>, marks: Seq<bool>) -> Seq<T>
    decreases items.len(),
{
    if items.len() == 0 {
        Seq::empty()
    } else {
        let n = items.len() - 1;
        let prefix = kept_items(items.take(n), marks);
        if marks[n] {
            prefix
        } else {
            prefix.push(items[n])
        }
    }
}

/// The items whose mark is `true`, in their original order.
pub open spec fn removed_items<T>(items: Seq<T>, marks: Seq<bool>) -> Seq<T>
    decreases items.len(),
{
    if items.len() == 0 {
        Seq::empty()
    } else {
        let n = items.len() - 1;
        let prefix = removed_items(items.take(n), marks);
        if marks[n] {
            prefix.push(items[n])
        } else {
            prefix
        }
    }
}

/// Number of `true` entries among the first `n` marks.
pub open spec fn count_marked(marks: Seq<bool>, n: int) -> nat
    decreases n,
{
    if n <= 0 {
        0
    } else {
        count_marked(marks, n - 1) + if marks[n - 1] { 1nat } else { 0nat }
    }
}

/// Every item lands in exactly one of the two parts, and the removed part
/// has as many items as there are marks set.
pub proof fn lemma_partition_sizes<T>(items: Seq<T>, marks: Seq<bool>)
    requires
        items.len() <= marks.len(),
    ensures
        kept_items(items, marks).len() + removed_items(items, marks).len() == items.len(),
        removed_items(items, marks).len() == count_marked(marks, items.len() as int),
    decreases items.len(),
{
    if items.len() > 0 {
        lemma_partition_sizes(items.take(items.len() - 1), marks);
    }
}

/// Splits `items` into those whose mark is `false` (first) and those whose
/// mark is `true` (second), each part in its original order.
pub fn partition_by_marks<T>(items: Vec<T>, marks: &Vec<bool>) -> (parts: (Vec<T>, Vec<T>))
    requires
        marks.len() == items.len(),
    ensures
        parts.0@ == kept_items(items@, marks@),
        parts.1@ == removed_items(items@, marks@),
{
    let ghost all = items@;
    let mut kept: Vec<T> = Vec::new();
    let mut removed: Vec<T> = Vec::new();
    let mut i: usize = 0;
    for item in it: items.into_iter()
        invariant
            it.seq() == all,
            i == it.index(),
            marks.len() == all.len(),
            kept@ == kept_items(all.take(i as int), marks@),
            removed@ == removed_items(all.take(i as int), marks@),
    {
        assert(all.take(i + 1).take(i as int) == all.take(i as int));
        if marks[i] {
            removed.push(item);
        } else {
            kept.push(item);
        }
        i = i + 1;
    }
    assert(all.take(all.len() as int) == all);
    (kept, removed)
}

/// Keeps the items whose mark is `false`, in their original order.
pub fn retain_unmarked<T>(items: &mut Vec<T>, marks: &Vec<bool>)
    requires
        marks.len() == old(items).len(),
    ensures
        final(items)@ == kept_items(old(items)@, marks@),
{
    let mut taken: Vec<T> = Vec::new();
    std::mem::swap(&mut taken, items);
    let (kept, _removed) = partition_by_marks(taken, marks);
    *items = kept;
}

} // verus!
