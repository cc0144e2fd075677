//! Position limit checks.
use vstd::prelude::*;

use crate::pretrade::gate::{LimitTable, LimitTableView};
use crate::types::{abs_int, InstrumentId, Qty};
use crate::verdict::{IndeterminateReason, RejectReason, RiskVerdict};

verus! {

/// Absolute post-order position verdict. Any step that leaves `i64` (the
/// post-order position, or the absolute value of it or of the limit) is
/// indeterminate.
pub open spec fn position_verdict(
    limits: LimitTableView,
    instrument_id: InstrumentId,
    current_position: Qty,
    order_qty: Qty,
) -> RiskVerdict {
    match limits.max_abs_position.get(instrument_id.0) {
        None => RiskVerdict::Indeterminate(IndeterminateReason::MissingLimit),
        Some(limit) => {
            let post = current_position.0 + order_qty.0;
            if !(i64::MIN <= post <= i64::MAX) || abs_int(post) > i64::MAX || abs_int(limit.0 as int)
                > i64::MAX {
                RiskVerdict::Indeterminate(IndeterminateReason::ArithmeticOverflow)
            } else if abs_int(post) > abs_int(limit.0 as int) {
                RiskVerdict::Reject(RejectReason::PositionLimit)
            } else {
                RiskVerdict::Pass
            }
        },
    }
}

/// Checks absolute post-order position against configured limits.
pub fn check(limits: &LimitTable, instrument_id: InstrumentId, current_position: Qty, order_qty: Qty) -> (v:
    RiskVerdict)
    ensures
        v == position_verdict(limits@, instrument_id, current_position, order_qty),
{
    let limit = match limits.max_abs_position(instrument_id) {
        Some(limit) => limit,
        None => return RiskVerdict::Indeterminate(IndeterminateReason::MissingLimit),
    };
    let post_order_position = match current_position.checked_add(order_qty) {
        Some(q) => q,
        None => return RiskVerdict::Indeterminate(IndeterminateReason::ArithmeticOverflow),
    };
    let abs_position = match post_order_position.checked_abs() {
        Some(q) => q,
        None => return RiskVerdict::Indeterminate(IndeterminateReason::ArithmeticOverflow),
    };
    let abs_limit = match limit.checked_abs() {
        Some(q) => q,
        None => return RiskVerdict::Indeterminate(IndeterminateReason::ArithmeticOverflow),
    };
    if abs_position.0 > abs_limit.0 {
        RiskVerdict::Reject(RejectReason::PositionLimit)
    } else {
        RiskVerdict::Pass
    }
}

/// The position limit bounds the position after the order: with a limit
/// configured and no step leaving `i64`, the order is rejected exactly when
/// `abs(current_position + order_qty) > abs(limit)`. Two requests with the
/// same post-order position get the same verdict, so an order that moves a
/// position inside the limit toward zero always passes.
pub proof fn lemma_position_on_post_order_position(
    limits: LimitTableView,
    instrument_id: InstrumentId,
    current_position: Qty,
    order_qty: Qty,
    other_current: Qty,
    other_order: Qty,
)
    ensures
        limits.max_abs_position.contains_key(instrument_id.0) ==> ({
            let limit = limits.max_abs_position[instrument_id.0].0 as int;
            let post = current_position.0 as int + order_qty.0 as int;
            let abs_post = if post < 0 {
                -post
            } else {
                post
            };
            let abs_limit = if limit < 0 {
                -limit
            } else {
                limit
            };
            let v = position_verdict(limits, instrument_id, current_position, order_qty);
            &&& (i64::MIN < post <= i64::MAX && limit > i64::MIN && abs_post > abs_limit) ==> v
                == RiskVerdict::Reject(RejectReason::PositionLimit)
            &&& (i64::MIN < post <= i64::MAX && limit > i64::MIN && abs_post <= abs_limit) ==> v
                == RiskVerdict::Pass
            &&& (limit > i64::MIN && i64::MIN < current_position.0 && abs_int(
                current_position.0 as int,
            ) <= abs_limit && (0 <= post <= current_position.0 || current_position.0 <= post <= 0))
                ==> v == RiskVerdict::Pass
        }),
        current_position.0 + order_qty.0 == other_current.0 + other_order.0 ==> position_verdict(
            limits,
            instrument_id,
            current_position,
            order_qty,
        ) == position_verdict(limits, instrument_id, other_current, other_order),
{
}

} // verus!
