//! Fat-finger price band checks.
use vstd::prelude::*;

use crate::market::{MarketSnapshot, MarketSnapshotView};
use crate::pretrade::gate::{LimitTable, LimitTableView};
use crate::types::{abs_int, InstrumentId, Price, Timestamp};
use crate::verdict::{IndeterminateReason, RejectReason, RiskVerdict};

verus! {

/// Price-band decision. The band and a trusted, non-zero reference price must
/// exist; the order is rejected when `abs(order - reference) * 10_000`
/// exceeds `abs(reference) * band_bps`.
pub open spec fn fat_finger_verdict(
    limits: LimitTableView,
    instrument_id: InstrumentId,
    order_price: Price,
    market: MarketSnapshotView,
    now: Timestamp,
) -> RiskVerdict {
    match limits.fat_finger_band_bps.get(instrument_id.0) {
        None => RiskVerdict::Indeterminate(IndeterminateReason::MissingLimit),
        Some(band_bps) => match market.trusted_price(instrument_id, now) {
            Err(reason) => RiskVerdict::Indeterminate(reason),
            Ok(reference) => if reference.0 == 0 {
                RiskVerdict::Indeterminate(IndeterminateReason::BadDataQuality)
            } else if abs_int(order_price.0 - reference.0) * 10_000 > abs_int(reference.0 as int)
                * band_bps {
                RiskVerdict::Reject(RejectReason::FatFinger)
            } else {
                RiskVerdict::Pass
            },
        },
    }
}

/// `abs(v)` of an `i64` value held in an `i128`.
fn abs_wide(v: i128) -> (r: i128)
    requires
        -0x1_0000_0000_0000_0000 <= v <= 0x1_0000_0000_0000_0000,
    ensures
        r == abs_int(v as int),
{
    if v < 0 {
        -v
    } else {
        v
    }
}

/// Checks submitted order price against the trusted market price.
pub fn check(
    limits: &LimitTable,
    instrument_id: InstrumentId,
    order_price: Price,
    market: &MarketSnapshot,
    now: Timestamp,
) -> (v: RiskVerdict)
    ensures
        v == fat_finger_verdict(limits@, instrument_id, order_price, market@, now),
{
    let band_bps = match limits.fat_finger_band_bps(instrument_id) {
        Some(band) => band,
        None => return RiskVerdict::Indeterminate(IndeterminateReason::MissingLimit),
    };
    let reference_price = match market.trusted_price(instrument_id, now) {
        Ok(price) => price,
        Err(reason) => return RiskVerdict::Indeterminate(reason),
    };
    let reference_abs = abs_wide(reference_price.0 as i128);
    if reference_abs == 0 {
        return RiskVerdict::Indeterminate(IndeterminateReason::BadDataQuality);
    }
    let delta = abs_wide(order_price.0 as i128 - reference_price.0 as i128);
    let scaled_delta = delta * 10_000;
    let band = band_bps as i128;
    assert(reference_abs * band <= 0x8000_0000_0000_0000 * 0x1_0000_0000) by (nonlinear_arith)
        requires
            0 <= reference_abs <= 0x8000_0000_0000_0000,
            0 <= band <= 0xffff_ffff,
    ;
    let max_delta = reference_abs * band;
    if scaled_delta > max_delta {
        RiskVerdict::Reject(RejectReason::FatFinger)
    } else {
        RiskVerdict::Pass
    }
}

/// The price band is symmetric around the trusted reference price: with a
/// band configured and a trusted non-zero reference `r`, an order at `o` is
/// rejected exactly when `abs(o - r) * 10_000 > abs(r) * band_bps`, and
/// orders the same distance below and above `r` get the same verdict.
pub proof fn lemma_fat_finger_band_is_symmetric(
    limits: LimitTableView,
    instrument_id: InstrumentId,
    order_price: Price,
    mirror_price: Price,
    market: MarketSnapshotView,
    now: Timestamp,
)
    ensures
        limits.fat_finger_band_bps.contains_key(instrument_id.0) && market.trusted_price(
            instrument_id,
            now,
        ) is Ok && market.trusted_price(instrument_id, now)->Ok_0.0 != 0 ==> ({
            let band = limits.fat_finger_band_bps[instrument_id.0] as int;
            let r = market.trusted_price(instrument_id, now)->Ok_0.0 as int;
            let d = order_price.0 as int - r;
            let abs_d = if d < 0 {
                -d
            } else {
                d
            };
            let abs_r = if r < 0 {
                -r
            } else {
                r
            };
            &&& fat_finger_verdict(limits, instrument_id, order_price, market, now) == (if abs_d
                * 10_000 > abs_r * band {
                RiskVerdict::Reject(RejectReason::FatFinger)
            } else {
                RiskVerdict::Pass
            })
            &&& order_price.0 - r == r - mirror_price.0 ==> fat_finger_verdict(
                limits,
                instrument_id,
                order_price,
                market,
                now,
            ) == fat_finger_verdict(limits, instrument_id, mirror_price, market, now)
        }),
{
}

} // verus!
