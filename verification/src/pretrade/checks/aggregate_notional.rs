//! Aggregate notional limit checks.
use vstd::prelude::*;

use crate::market::{MarketSnapshot, MarketSnapshotView};
use crate::pretrade::gate::{LimitTable, LimitTableView};
use crate::types::{Notional, Timestamp};
use crate::verdict::{IndeterminateReason, RejectReason, RiskVerdict};

verus! {

/// Post-order aggregate decision. The limit must exist, the aggregate snapshot
/// must be trusted, and `aggregate + order` must fit and not exceed the limit.
pub open spec fn aggregate_verdict(
    limits: LimitTableView,
    market: MarketSnapshotView,
    now: Timestamp,
    order_notional: Notional,
) -> RiskVerdict {
    match limits.aggregate_notional {
        None => RiskVerdict::Indeterminate(IndeterminateReason::MissingLimit),
        Some(limit) => match market.trusted_aggregate_notional(now) {
            Err(reason) => RiskVerdict::Indeterminate(reason),
            Ok(aggregate) => {
                let post = aggregate.0 + order_notional.0;
                if !(i64::MIN <= post <= i64::MAX) {
                    RiskVerdict::Indeterminate(IndeterminateReason::ArithmeticOverflow)
                } else if post > limit.0 {
                    RiskVerdict::Reject(RejectReason::AggregateNotionalLimit)
                } else {
                    RiskVerdict::Pass
                }
            },
        },
    }
}

/// Checks post-order aggregate notional against the configured limit.
pub fn check(limits: &LimitTable, market: &MarketSnapshot, now: Timestamp, order_notional: Notional) -> (v:
    RiskVerdict)
    ensures
        v == aggregate_verdict(limits@, market@, now, order_notional),
{
    let limit = match limits.aggregate_notional_limit() {
        Some(limit) => limit,
        None => return RiskVerdict::Indeterminate(IndeterminateReason::MissingLimit),
    };
    let aggregate_notional = match market.trusted_aggregate_notional(now) {
        Ok(notional) => notional,
        Err(reason) => return RiskVerdict::Indeterminate(reason),
    };
    let post_order_notional = match aggregate_notional.checked_add(order_notional) {
        Some(n) => n,
        None => return RiskVerdict::Indeterminate(IndeterminateReason::ArithmeticOverflow),
    };
    if post_order_notional.0 > limit.0 {
        RiskVerdict::Reject(RejectReason::AggregateNotionalLimit)
    } else {
        RiskVerdict::Pass
    }
}

} // verus!
