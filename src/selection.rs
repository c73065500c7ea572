use vstd::prelude::*;

verus! {

/// How a consumer with random draw `rnd` picks its operation: a multiple
/// of three removes without waiting.
pub fn is_non_blocking_pop(rnd: u16) -> (r: bool)
    ensures
        r == (rnd % 3 == 0),
{
    rnd % 3 == 0
}

/// Otherwise an even draw removes with waiting; any other draw removes by
/// predicate.
pub fn is_blocking_pop(rnd: u16) -> (r: bool)
    ensures
        r == (rnd % 2 == 0),
{
    rnd % 2 == 0
}

/// A producer with draw `rnd` inserts with waiting: every draw qualifies.
pub fn is_blocking_push(rnd: u16) -> (r: bool)
    ensures
        r == (rnd % 1 == 0),
        r,
{
    rnd % 1 == 0
}

} // verus!
