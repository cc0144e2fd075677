//! Futures and perpetual swap margin checks.
use vstd::prelude::*;

use crate::instrument::{AssetClass, Instrument};
use crate::pretrade::gate::{LimitTable, LimitTableView};
use crate::types::{abs_int, InstrumentId, Notional, Qty};
use crate::verdict::{IndeterminateReason, RejectReason, RiskVerdict};

verus! {

/// Whether an asset class carries initial margin.
pub open spec fn is_margined(class: AssetClass) -> bool {
    class == AssetClass::Future || class == AssetClass::PerpetualSwap
}

/// Initial-margin verdict for a margined instrument: the required margin is
/// `rate * abs(current + order)`, and must fit and not exceed what is
/// available.
pub open spec fn margined_verdict(
    limits: LimitTableView,
    instrument_id: InstrumentId,
    current_position: Qty,
    order_qty: Qty,
    available_margin: Notional,
) -> RiskVerdict {
    match limits.initial_margin_per_unit.get(instrument_id.0) {
        None => RiskVerdict::Indeterminate(IndeterminateReason::MissingLimit),
        Some(rate) => {
            let post = current_position.0 + order_qty.0;
            let required = abs_int(rate.0 * post);
            if !(i64::MIN <= post <= i64::MAX) || required > i64::MAX {
                RiskVerdict::Indeterminate(IndeterminateReason::ArithmeticOverflow)
            } else if required > available_margin.0 {
                RiskVerdict::Reject(RejectReason::Margin)
            } else {
                RiskVerdict::Pass
            }
        },
    }
}

/// Margin decision. Instruments other than futures and perpetual swaps pass.
pub open spec fn margin_verdict(
    limits: LimitTableView,
    instrument: Instrument,
    current_position: Qty,
    order_qty: Qty,
    available_margin: Notional,
) -> RiskVerdict {
    if !is_margined(instrument.asset_class_spec()) {
        RiskVerdict::Pass
    } else {
        margined_verdict(limits, instrument.id_spec(), current_position, order_qty, available_margin)
    }
}

/// Checks initial margin for futures and perpetual swaps.
pub fn check(
    limits: &LimitTable,
    instrument: Instrument,
    current_position: Qty,
    order_qty: Qty,
    available_margin: Notional,
) -> (v: RiskVerdict)
    ensures
        v == margin_verdict(limits@, instrument, current_position, order_qty, available_margin),
{
    match instrument.asset_class() {
        AssetClass::Future | AssetClass::PerpetualSwap => {},
        _ => return RiskVerdict::Pass,
    }
    check_margined_instrument(
        limits,
        instrument.id(),
        current_position,
        order_qty,
        available_margin,
    )
}

fn check_margined_instrument(
    limits: &LimitTable,
    instrument_id: InstrumentId,
    current_position: Qty,
    order_qty: Qty,
    available_margin: Notional,
) -> (v: RiskVerdict)
    ensures
        v == margined_verdict(limits@, instrument_id, current_position, order_qty, available_margin),
{
    let initial_margin_per_unit = match limits.initial_margin_per_unit(instrument_id) {
        Some(rate) => rate,
        None => return RiskVerdict::Indeterminate(IndeterminateReason::MissingLimit),
    };
    let post_order_position = match current_position.checked_add(order_qty) {
        Some(q) => q,
        None => return RiskVerdict::Indeterminate(IndeterminateReason::ArithmeticOverflow),
    };
    let required_margin = match initial_margin_per_unit.checked_mul_abs_qty(post_order_position) {
        Some(n) => n,
        None => return RiskVerdict::Indeterminate(IndeterminateReason::ArithmeticOverflow),
    };
    if required_margin.0 > available_margin.0 {
        RiskVerdict::Reject(RejectReason::Margin)
    } else {
        RiskVerdict::Pass
    }
}

/// The margin requirement is on the position after the order: for a future
/// or perpetual swap with a configured rate, the required margin is
/// `abs(rate * (current_position + order_qty))`; the order is rejected
/// exactly when that exceeds the available margin, and is indeterminate
/// when the post-order position or the requirement leaves `i64`. Two
/// requests with the same post-order position get the same verdict, and
/// instruments of other asset classes always pass.
pub proof fn lemma_margin_on_post_order_position(
    limits: LimitTableView,
    instrument: Instrument,
    current_position: Qty,
    order_qty: Qty,
    available_margin: Notional,
    other_current: Qty,
    other_order: Qty,
)
    ensures
        !(instrument is Future || instrument is Perp) ==> margin_verdict(
            limits,
            instrument,
            current_position,
            order_qty,
            available_margin,
        ) == RiskVerdict::Pass,
        (instrument is Future || instrument is Perp) && limits.initial_margin_per_unit.contains_key(
            instrument.id_spec().0,
        ) ==> ({
            let rate = limits.initial_margin_per_unit[instrument.id_spec().0].0 as int;
            let post = current_position.0 as int + order_qty.0 as int;
            let required = if rate * post < 0 {
                -(rate * post)
            } else {
                rate * post
            };
            let v = margin_verdict(limits, instrument, current_position, order_qty, available_margin);
            &&& (i64::MIN <= post <= i64::MAX && required <= i64::MAX && required
                > available_margin.0) ==> v == RiskVerdict::Reject(RejectReason::Margin)
            &&& (i64::MIN <= post <= i64::MAX && required <= available_margin.0) ==> v
                == RiskVerdict::Pass
            &&& !(i64::MIN <= post <= i64::MAX && required <= i64::MAX) ==> v
                == RiskVerdict::Indeterminate(IndeterminateReason::ArithmeticOverflow)
        }),
        current_position.0 + order_qty.0 == other_current.0 + other_order.0 ==> margin_verdict(
            limits,
            instrument,
            current_position,
            order_qty,
            available_margin,
        ) == margin_verdict(limits, instrument, other_current, other_order, available_margin),
{
}

} // verus!
