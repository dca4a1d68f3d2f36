//! The first position at which something holds.

use vstd::prelude::*;

verus! {

/// The least position below `n` at which `holds`, or `n` where there is none.
pub open spec fn first_index(n: int, holds: spec_fn(int) -> bool) -> int
    decreases n,
{
    if n <= 0 {
        0
    } else {
        let before = first_index(n - 1, holds);
        if before < n - 1 {
            before
        } else if holds(n - 1) {
            n - 1
        } else {
            n
        }
    }
}

/// `first_index` lies in range, nothing holds before it, and it holds at it
/// unless it is `n`.
pub proof fn lemma_first_index(n: int, holds: spec_fn(int) -> bool)
    requires
        0 <= n,
    ensures
        0 <= first_index(n, holds) <= n,
        forall|j: int| 0 <= j < first_index(n, holds) ==> !#[trigger] holds(j),
        first_index(n, holds) < n ==> holds(first_index(n, holds)),
    decreases n,
{
    if n > 0 {
        lemma_first_index(n - 1, holds);
    }
}

/// A position before which nothing holds, and at which it holds unless the
/// position is `n`, is `first_index`.
pub proof fn lemma_first_index_is(n: int, holds: spec_fn(int) -> bool, at: int)
    requires
        0 <= at <= n,
        forall|j: int| 0 <= j < at ==> !#[trigger] holds(j),
        at < n ==> holds(at),
    ensures
        first_index(n, holds) == at,
{
    lemma_first_index(n, holds);
}

} // verus!
