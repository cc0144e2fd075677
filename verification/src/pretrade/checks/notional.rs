//! Notional limit checks.
use vstd::prelude::*;

use crate::pretrade::gate::{LimitTable, LimitTableView};
use crate::types::{InstrumentId, Notional};
use crate::verdict::{IndeterminateReason, RejectReason, RiskVerdict};

verus! {

/// Per-order notional decision. A missing limit is indeterminate, an order
/// notional strictly above the limit is rejected.
pub open spec fn per_order_verdict(
    limits: LimitTableView,
    instrument_id: InstrumentId,
    order_notional: Notional,
) -> RiskVerdict {
    match limits.per_order_notional.get(instrument_id.0) {
        None => RiskVerdict::Indeterminate(IndeterminateReason::MissingLimit),
        Some(limit) => if order_notional.0 > limit.0 {
            RiskVerdict::Reject(RejectReason::OrderNotionalLimit)
        } else {
            RiskVerdict::Pass
        },
    }
}

/// Checks per-order notional against configured limits.
pub fn check_per_order(limits: &LimitTable, instrument_id: InstrumentId, order_notional: Notional) -> (v:
    RiskVerdict)
    ensures
        v == per_order_verdict(limits@, instrument_id, order_notional),
{
    let limit = match limits.per_order_notional(instrument_id) {
        Some(limit) => limit,
        None => return RiskVerdict::Indeterminate(IndeterminateReason::MissingLimit),
    };
    if order_notional.0 > limit.0 {
        RiskVerdict::Reject(RejectReason::OrderNotionalLimit)
    } else {
        RiskVerdict::Pass
    }
}

} // verus!
