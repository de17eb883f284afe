use vstd::prelude::*;

verus! {

/// The sum `lhs + rhs` where it is a `u64`.
pub open spec fn add_signed(lhs: u64, rhs: i64) -> Option<u64> {
    if 0 <= lhs + rhs <= u64::MAX {
        Some((lhs + rhs) as u64)
    } else {
        None
    }
}

/// Adds a signed offset to an unsigned value; `None` where the sum is
/// negative or exceeds `u64::MAX`.
pub fn checked_add_signed(lhs: u64, rhs: i64) -> (r: Option<u64>)
    ensures
        r == add_signed(lhs, rhs),
{
    if rhs >= 0 {
        lhs.checked_add(rhs as u64)
    } else if rhs == i64::MIN {
        lhs.checked_sub(0x8000_0000_0000_0000u64)
    } else {
        lhs.checked_sub((-rhs) as u64)
    }
}

} // verus!
