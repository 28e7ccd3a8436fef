//! Plain arithmetic on machine integers.
use vstd::prelude::*;

verus! {

pub fn add_one(x: usize) -> (r: usize)
    requires
        x < usize::MAX,
    ensures
        r == x + 1,
{
    x + 1
}

} // verus!
