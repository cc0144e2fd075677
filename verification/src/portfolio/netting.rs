//! Cross-currency netting helpers.
use vstd::prelude::*;

use crate::market::MarketSnapshot;
use crate::types::Timestamp;
use crate::verdict::IndeterminateReason;

verus! {

/// Returns whether the aggregate exposure snapshot is fresh enough for netting.
pub fn aggregate_snapshot_ready(market: &MarketSnapshot, now: Timestamp) -> (r: Result<
    (),
    IndeterminateReason,
>)
    ensures
        r == (if market@.aggregate_is_fresh(now) {
            Ok::<(), IndeterminateReason>(())
        } else {
            Err(IndeterminateReason::StaleAggregateSnapshot)
        }),
{
    if market.aggregate_is_fresh(now) {
        Ok(())
    } else {
        Err(IndeterminateReason::StaleAggregateSnapshot)
    }
}

} // verus!
