//! How the capacity of a reply buffer grows from one query to the next.
use vstd::prelude::*;

verus! {

/// The capacity that is tried after a buffer of `capacity` entries came back
/// full: twice as much, but no less than `least` and no more than `most`.
pub open spec fn grown(capacity: usize, least: usize, most: usize) -> usize {
    if capacity < least {
        least
    } else if capacity > most / 2 {
        most
    } else {
        (2 * capacity) as usize
    }
}

/// The capacity to try after a buffer of `capacity` entries came back full.
/// Below `most` the result is larger than `capacity`, so a series of
/// retries comes to an end.
pub fn grow(capacity: usize, least: usize, most: usize) -> (r: usize)
    ensures
        r == grown(capacity, least, most),
        least <= most ==> r <= most,
        0 < least <= most && capacity < most ==> r > capacity,
{
    if capacity < least {
        least
    } else if capacity > most / 2 {
        most
    } else {
        2 * capacity
    }
}

/// The greatest number of queries that can still be put, the next one with
/// a buffer of `capacity` entries, when each comes back full.
pub open spec fn tries_left(capacity: usize, least: usize, most: usize) -> nat
    decreases most - capacity,
{
    if capacity < grown(capacity, least, most) <= most {
        1 + tries_left(grown(capacity, least, most), least, most)
    } else {
        1
    }
}

} // verus!
