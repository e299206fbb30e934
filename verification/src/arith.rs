use vstd::prelude::*;

verus! {

/// Saturating addition on 64-bit amounts: caps at `u64::MAX` instead of
/// wrapping.
pub open spec fn sat_add64(a: u64, b: u64) -> u64 {
    if a + b > u64::MAX {
        u64::MAX
    } else {
        (a + b) as u64
    }
}

/// Saturating subtraction on 64-bit amounts: floors at zero instead of
/// wrapping.
pub open spec fn sat_sub64(a: u64, b: u64) -> u64 {
    if a >= b {
        (a - b) as u64
    } else {
        0
    }
}

} // verus!
