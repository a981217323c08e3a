use vstd::prelude::*;

verus! {

/// The containing word boundary of `addr`: the largest multiple of 4 that is
/// not above it.
pub fn align(addr: u32) -> (r: u32)
    ensures
        r == addr - addr % 4,
        r % 4 == 0,
        r <= addr,
        addr < r + 4,
{
    addr - addr % 4
}

} // verus!
