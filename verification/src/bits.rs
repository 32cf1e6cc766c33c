//! Bit sets over `u32` (and `u16` for modifier masks) with the usual
//! set operations of flag types.

use vstd::prelude::*;

verus! {

/// Every bit of `mask` is set in `flags`.
pub open spec fn has_all(flags: u32, mask: u32) -> bool {
    flags & mask == mask
}

/// At least one bit of `mask` is set in `flags`.
pub open spec fn has_any(flags: u32, mask: u32) -> bool {
    flags & mask != 0
}

/// Whether all bits of `mask` are set in `flags`.
pub fn contains(flags: u32, mask: u32) -> (r: bool)
    ensures
        r == has_all(flags, mask),
{
    flags & mask == mask
}

/// Whether any bit of `mask` is set in `flags`.
pub fn intersects(flags: u32, mask: u32) -> (r: bool)
    ensures
        r == has_any(flags, mask),
{
    flags & mask != 0
}

/// The single bit with index `idx`.
pub open spec fn bit(idx: int) -> u32 {
    (1u32 << (idx as u32)) as u32
}

/// The set holding only the bit with index `idx`.
pub fn bit_at(idx: usize) -> (r: u32)
    requires
        idx < 32,
    ensures
        r == bit(idx as int),
        r != 0,
{
    let r = 1u32 << (idx as u32);
    assert(r != 0) by (bit_vector)
        requires
            idx < 32,
            r == 1u32 << (idx as u32),
    ;
    r
}

} // verus!
