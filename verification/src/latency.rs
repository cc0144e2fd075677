//! Latency report arithmetic.
use vstd::prelude::*;

verus! {

/// Index of the `per_mille` percentile in `len` ascending samples: the
/// nearest-rank position `ceil(len * per_mille / 1000) - 1`, computed with
/// saturating arithmetic and clamped to the last sample.
pub open spec fn percentile_index_spec(len: usize, per_mille: usize) -> int {
    let scaled = if len * per_mille > usize::MAX {
        usize::MAX as int
    } else {
        len * per_mille
    };
    let rounded = if scaled + 999 > usize::MAX {
        usize::MAX as int
    } else {
        scaled + 999
    };
    let rank = rounded / 1000;
    let index = if rank >= 1 {
        rank - 1
    } else {
        0
    };
    if index < len - 1 {
        index
    } else {
        len - 1
    }
}

/// Position of the `per_mille` percentile among `len` sorted samples.
pub fn percentile_index(len: usize, per_mille: usize) -> (i: usize)
    requires
        len > 0,
    ensures
        i == percentile_index_spec(len, per_mille),
        i < len,
{
    let scaled = match len.checked_mul(per_mille) {
        Some(v) => v,
        None => usize::MAX,
    };
    let rank = scaled.saturating_add(999) / 1_000;
    let index = rank.saturating_sub(1);
    if index < len - 1 {
        index
    } else {
        len - 1
    }
}

} // verus!
