//! Removing marked items from a sequence by swapping the last item into their
//! place, and what such a purge keeps.

use vstd::prelude::*;
use std::collections::VecDeque;
use crate::selection::flagged;

verus! {

/// A sequence from which the element at `index` was removed by putting the last
/// element in its place.
pub open spec fn swap_removed<A>(items: Seq<A>, index: int) -> Seq<A> {
    items.update(index, items.last()).drop_last()
}

/// Calls `VecDeque::swap_remove_back`, which removes the element at `index` and puts
/// the last element in its place, and returns `None` and changes nothing where
/// `index` is out of bounds.
#[verifier::external_body]
pub(crate) fn swap_remove_back<A>(items: &mut VecDeque<A>, index: usize) -> (removed: Option<A>)
    ensures
        index < old(items)@.len() ==> removed == Some(old(items)@[index as int]) && final(items)@
            == swap_removed(old(items)@, index as int),
        index >= old(items)@.len() ==> removed is None && final(items)@ == old(items)@,
{
    items.swap_remove_back(index)
}

/// An array from which the block of `width` entries at `start` was removed by
/// writing the last block over it and dropping the last block.
pub open spec fn swap_removed_block<A>(flat: Seq<A>, start: int, width: int) -> Seq<A> {
    Seq::new(
        (flat.len() - width) as nat,
        |k: int|
            if start <= k < start + width {
                flat[flat.len() - width + (k - start)]
            } else {
                flat[k]
            },
    )
}

/// What is left of `items` after the indices `upto - 1, upto - 2, ..., 0` were
/// visited in this order and each marked one was swap-removed.
pub open spec fn purged_from<A>(items: Seq<A>, flags: Seq<bool>, upto: int) -> Seq<A>
    decreases upto,
{
    if upto <= 0 {
        items
    } else if flagged(flags, upto - 1) && upto <= items.len() {
        purged_from(swap_removed(items, upto - 1), flags, upto - 1)
    } else {
        purged_from(items, flags, upto - 1)
    }
}

/// What is left of `items` after every marked index was swap-removed, from the last
/// index down to the first.
pub open spec fn purged<A>(items: Seq<A>, flags: Seq<bool>) -> Seq<A> {
    purged_from(items, flags, items.len() as int)
}

/// A vertex array after the particles at the indices `upto - 1, ..., 0` were visited
/// in this order and the block of each marked one was swap-removed.
pub open spec fn purged_segments_from<V>(vertices: Seq<V>, flags: Seq<bool>, upto: int) -> Seq<V>
    decreases upto,
{
    if upto <= 0 {
        vertices
    } else if flagged(flags, upto - 1) && 4 * upto <= vertices.len() {
        purged_segments_from(swap_removed_block(vertices, 4 * (upto - 1), 4), flags, upto - 1)
    } else {
        purged_segments_from(vertices, flags, upto - 1)
    }
}

/// The indices `0, 1, ..., len - 1`.
pub open spec fn identity(len: nat) -> Seq<int> {
    Seq::new(len, |i: int| i)
}

/// The order in which a purge leaves the indices of a sequence of length `len`:
/// entry `k` is the index that the item at `k` had before.
pub open spec fn purge_order(len: nat, flags: Seq<bool>) -> Seq<int> {
    purged(identity(len), flags)
}

/// The items of `items` at the indices that `order` lists, in that order.
pub open spec fn gathered<A>(items: Seq<A>, order: Seq<int>) -> Seq<A> {
    Seq::new(order.len(), |k: int| items[order[k]])
}

/// The blocks of four of `vertices` at the indices that `order` lists, in that
/// order.
pub open spec fn gathered_segments<V>(vertices: Seq<V>, order: Seq<int>) -> Seq<V> {
    Seq::new(4 * order.len(), |k: int| vertices[4 * order[k / 4] + k % 4])
}

/// What holds of the order while a purge is under way, before the index
/// `upto - 1` is visited: below `upto` nothing has moved; from `upto` on stand
/// unmarked indices of at least `upto`, each at most once, and none is missing.
spec fn settled_from(order: Seq<int>, flags: Seq<bool>, upto: int, len: int) -> bool {
    &&& 0 <= upto <= order.len()
    &&& upto <= len
    &&& forall|k: int| 0 <= k < upto ==> order[k] == k
    &&& forall|k: int|
        upto <= k < order.len() ==> upto <= #[trigger] order[k] < len && !flagged(flags, order[k])
    &&& forall|k1: int, k2: int|
        0 <= k1 < k2 < order.len() ==> #[trigger] order[k1] != #[trigger] order[k2]
    &&& forall|j: int|
        upto <= j < len && !flagged(flags, j) ==> exists|k: int|
            upto <= k < order.len() && #[trigger] order[k] == j
}

/// Each step of a purge keeps the order settled, so the order that is left in the
/// end is settled from index 0 on.
proof fn lemma_purge_settles(order: Seq<int>, flags: Seq<bool>, upto: int, len: int)
    requires
        settled_from(order, flags, upto, len),
    ensures
        settled_from(purged_from(order, flags, upto), flags, 0, len),
    decreases upto,
{
    if upto > 0 {
        let j = upto - 1;
        if flagged(flags, j) {
            let next = swap_removed(order, j);
            let last = order.len() - 1;
            assert forall|i: int| j <= i < len && !flagged(flags, i) implies exists|k: int|
                j <= k < next.len() && #[trigger] next[k] == i by {
                let k = choose|k: int| upto <= k < order.len() && #[trigger] order[k] == i;
                if k == last {
                    assert(next[j] == i);
                } else {
                    assert(next[k] == i);
                }
            }
            assert forall|k1: int, k2: int| 0 <= k1 < k2 < next.len() implies #[trigger] next[k1]
                != #[trigger] next[k2] by {
                let from1 = if k1 == j {
                    last
                } else {
                    k1
                };
                let from2 = if k2 == j {
                    last
                } else {
                    k2
                };
                assert(next[k1] == order[from1] && next[k2] == order[from2]);
                assert(from1 != from2);
                if from1 < from2 {
                    assert(order[from1] != order[from2]);
                } else {
                    assert(order[from2] != order[from1]);
                }
            }
            assert(settled_from(next, flags, j, len));
            lemma_purge_settles(next, flags, j, len);
        } else {
            assert forall|i: int| j <= i < len && !flagged(flags, i) implies exists|k: int|
                j <= k < order.len() && #[trigger] order[k] == i by {
                if i == j {
                    assert(order[j] == i);
                } else {
                    let k = choose|k: int| upto <= k < order.len() && #[trigger] order[k] == i;
                    assert(order[k] == i);
                }
            }
            assert(settled_from(order, flags, j, len));
            lemma_purge_settles(order, flags, j, len);
        }
    }
}

/// A purge keeps exactly the unmarked items, each once: the order that it leaves
/// lists indices of the sequence that are not marked, lists none twice, and lists
/// every index that is not marked.
pub proof fn law_purge_keeps_the_unmarked(len: nat, flags: Seq<bool>)
    ensures
        forall|k: int|
            0 <= k < purge_order(len, flags).len() ==> 0 <= #[trigger] purge_order(len, flags)[k]
                < len && !flagged(flags, purge_order(len, flags)[k]),
        forall|k1: int, k2: int|
            0 <= k1 < k2 < purge_order(len, flags).len() ==> #[trigger] purge_order(len, flags)[k1]
                != #[trigger] purge_order(len, flags)[k2],
        forall|j: int|
            0 <= j < len && !flagged(flags, j) ==> exists|k: int|
                0 <= k < purge_order(len, flags).len() && #[trigger] purge_order(len, flags)[k]
                    == j,
        purge_order(len, flags).len() <= len,
{
    let start = identity(len);
    assert(settled_from(start, flags, len as int, len as int));
    lemma_purge_settles(start, flags, len as int, len as int);
    lemma_purge_shrinks(start, flags, len as int);
    assert(purge_order(len, flags) == purged_from(start, flags, len as int));
}

/// A purge adds nothing.
pub proof fn lemma_purge_shrinks<A>(items: Seq<A>, flags: Seq<bool>, upto: int)
    ensures
        purged_from(items, flags, upto).len() <= items.len(),
    decreases upto,
{
    if upto > 0 {
        if flagged(flags, upto - 1) && upto <= items.len() {
            lemma_purge_shrinks(swap_removed(items, upto - 1), flags, upto - 1);
        } else {
            lemma_purge_shrinks(items, flags, upto - 1);
        }
    }
}

/// Purging what was gathered by an order is gathering by the purged order.
proof fn lemma_purge_gathers<A>(items: Seq<A>, order: Seq<int>, flags: Seq<bool>, upto: int)
    ensures
        purged_from(gathered(items, order), flags, upto) == gathered(
            items,
            purged_from(order, flags, upto),
        ),
    decreases upto,
{
    if upto > 0 {
        if flagged(flags, upto - 1) && upto <= order.len() {
            assert(swap_removed(gathered(items, order), upto - 1) =~= gathered(
                items,
                swap_removed(order, upto - 1),
            ));
            lemma_purge_gathers(items, swap_removed(order, upto - 1), flags, upto - 1);
        } else {
            lemma_purge_gathers(items, order, flags, upto - 1);
        }
    }
}

/// Purging the segments that were gathered by an order is gathering the segments
/// by the purged order.
proof fn lemma_purge_gathers_segments<V>(
    vertices: Seq<V>,
    order: Seq<int>,
    flags: Seq<bool>,
    upto: int,
)
    ensures
        purged_segments_from(gathered_segments(vertices, order), flags, upto) == gathered_segments(
            vertices,
            purged_from(order, flags, upto),
        ),
    decreases upto,
{
    if upto > 0 {
        if flagged(flags, upto - 1) && upto <= order.len() {
            assert(swap_removed_block(gathered_segments(vertices, order), 4 * (upto - 1), 4)
                =~= gathered_segments(vertices, swap_removed(order, upto - 1)));
            lemma_purge_gathers_segments(vertices, swap_removed(order, upto - 1), flags, upto - 1);
        } else {
            lemma_purge_gathers_segments(vertices, order, flags, upto - 1);
        }
    }
}

/// The number of marked indices below `upto`.
pub open spec fn marked_below(flags: Seq<bool>, upto: int) -> nat
    decreases upto,
{
    if upto <= 0 {
        0
    } else if flagged(flags, upto - 1) {
        marked_below(flags, upto - 1) + 1
    } else {
        marked_below(flags, upto - 1)
    }
}

/// Visiting the indices below `upto` removes one item for each marked one.
proof fn lemma_purge_counts_from<A>(items: Seq<A>, flags: Seq<bool>, upto: int)
    requires
        upto <= items.len(),
    ensures
        purged_from(items, flags, upto).len() == items.len() - marked_below(flags, upto),
    decreases upto,
{
    if upto > 0 {
        if flagged(flags, upto - 1) {
            lemma_purge_counts_from(swap_removed(items, upto - 1), flags, upto - 1);
        } else {
            lemma_purge_counts_from(items, flags, upto - 1);
        }
    }
}

/// A purge removes as many items as there are marked indices.
pub proof fn law_purge_counts<A>(items: Seq<A>, flags: Seq<bool>)
    ensures
        purged(items, flags).len() == items.len() - marked_below(flags, items.len() as int),
{
    lemma_purge_counts_from(items, flags, items.len() as int);
}

/// A purge moves items and does not change them: what it leaves at `k` is the item
/// that stood at entry `k` of the purge order.
pub proof fn law_purge_permutes<A>(items: Seq<A>, flags: Seq<bool>)
    ensures
        purged(items, flags) == gathered(items, purge_order(items.len(), flags)),
{
    assert(items =~= gathered(items, identity(items.len())));
    lemma_purge_gathers(items, identity(items.len()), flags, items.len() as int);
}

/// A purge moves the segments as it moves the particles: the block that it leaves
/// for the particle at `k` is the block that this particle had before.
pub proof fn law_purge_permutes_segments<V>(vertices: Seq<V>, len: nat, flags: Seq<bool>)
    requires
        vertices.len() == 4 * len,
    ensures
        purged_segments_from(vertices, flags, len as int) == gathered_segments(
            vertices,
            purge_order(len, flags),
        ),
{
    assert(vertices =~= gathered_segments(vertices, identity(len)));
    lemma_purge_gathers_segments(vertices, identity(len), flags, len as int);
}

} // verus!
