//! Port-number conventions.
//!
//! Device-facing and internal port indices are zero-based. One-based numbers
//! appear only at the presentation boundary (action payloads and emitter
//! payloads); they are normalized on the way in and restored on the way out.

use vstd::prelude::*;

verus! {

/// A one-based presentation value mapped to its zero-based index: `v - 1`,
/// clamped so that `0` (out of range for a one-based number) also maps to `0`.
pub open spec fn spec_to_zero_based(v: u32) -> u32 {
    if v >= 1 {
        (v - 1) as u32
    } else {
        0
    }
}

/// A zero-based index re-exposed as a one-based presentation value: `v + 1`,
/// saturating at the top of the range.
pub open spec fn spec_to_one_based(v: u32) -> u32 {
    if v < u32::MAX {
        (v + 1) as u32
    } else {
        u32::MAX
    }
}

/// Normalizes a one-based presentation value to a zero-based index.
pub fn to_zero_based(v: u32) -> (r: u32)
    ensures
        r == spec_to_zero_based(v),
{
    if v >= 1 {
        v - 1
    } else {
        0
    }
}

/// Re-exposes a zero-based index as a one-based presentation value.
pub fn to_one_based(v: u32) -> (r: u32)
    ensures
        r == spec_to_one_based(v),
{
    if v < u32::MAX {
        v + 1
    } else {
        u32::MAX
    }
}

} // verus!
