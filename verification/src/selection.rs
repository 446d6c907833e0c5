//! Finding the first item that a sequence of flags marks.

use vstd::prelude::*;

verus! {

/// Whether `flags` marks the index `i`. An index that `flags` does not reach is not
/// marked.
pub open spec fn flagged(flags: Seq<bool>, i: int) -> bool {
    0 <= i < flags.len() && flags[i]
}

/// The first marked index in `from..limit`, if there is one.
pub open spec fn first_flagged_from(flags: Seq<bool>, limit: int, from: int) -> Option<int>
    decreases limit - from,
{
    if from >= limit {
        None
    } else if flagged(flags, from) {
        Some(from)
    } else {
        first_flagged_from(flags, limit, from + 1)
    }
}

/// The first marked index below `limit`, if there is one.
pub open spec fn first_flagged(flags: Seq<bool>, limit: int) -> Option<int> {
    first_flagged_from(flags, limit, 0)
}

/// The scan from `from` finds the least marked index in `from..limit`, and finds
/// none only where none is marked.
pub proof fn lemma_first_flagged_from(flags: Seq<bool>, limit: int, from: int)
    requires
        0 <= from,
    ensures
        match first_flagged_from(flags, limit, from) {
            Some(i) => {
                &&& from <= i < limit
                &&& flagged(flags, i)
                &&& forall|j: int| from <= j < i ==> !flagged(flags, j)
            },
            None => forall|j: int| from <= j < limit ==> !flagged(flags, j),
        },
    decreases limit - from,
{
    if from < limit && !flagged(flags, from) {
        lemma_first_flagged_from(flags, limit, from + 1);
    }
}

/// `first_flagged` is the least marked index below `limit`, and is `None` only
/// where no index below `limit` is marked.
pub proof fn lemma_first_flagged(flags: Seq<bool>, limit: int)
    ensures
        match first_flagged(flags, limit) {
            Some(i) => {
                &&& 0 <= i < limit
                &&& flagged(flags, i)
                &&& forall|j: int| 0 <= j < i ==> !flagged(flags, j)
            },
            None => forall|j: int| 0 <= j < limit ==> !flagged(flags, j),
        },
{
    lemma_first_flagged_from(flags, limit, 0);
}

/// Finds the first marked index below `limit`.
pub fn first_hit(hits: &Vec<bool>, limit: usize) -> (hit: Option<usize>)
    ensures
        match hit {
            Some(i) => first_flagged(hits@, limit as int) == Some(i as int),
            None => first_flagged(hits@, limit as int) is None,
        },
{
    let mut i: usize = 0;
    while i < limit && i < hits.len()
        invariant
            i <= limit,
            first_flagged_from(hits@, limit as int, i as int) == first_flagged(hits@, limit as int),
        decreases limit - i,
    {
        if hits[i] {
            return Some(i);
        }
        i += 1;
    }
    proof {
        lemma_unflagged_tail(hits@, limit as int, i as int);
    }
    None
}

/// Beyond the end of `flags` the scan finds nothing.
proof fn lemma_unflagged_tail(flags: Seq<bool>, limit: int, from: int)
    requires
        from >= flags.len() || from >= limit,
    ensures
        first_flagged_from(flags, limit, from) is None,
    decreases limit - from,
{
    if from < limit {
        lemma_unflagged_tail(flags, limit, from + 1);
    }
}

} // verus!
