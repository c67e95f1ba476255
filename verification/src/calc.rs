use vstd::prelude::*;

verus! {

/// The value a worker thread computes for its slot: ten times its index.
pub fn some_calculation(u: u64) -> (r: u64)
    requires
        u * 10 <= u64::MAX,
    ensures
        r == u * 10,
{
    u * 10
}

} // verus!
