//! Market prices, FX rates, and data-quality state.
use std::collections::HashMap;

use vstd::prelude::*;

use crate::currency::CurrencyPair;
use crate::types::{abs_int, notional_if_fits, saturating_age, InstrumentId, Notional, Price, Timestamp};
use crate::verdict::IndeterminateReason;

verus! {

broadcast use vstd::std_specs::hash::group_hash_axioms;

/// Risk-specific market data quality flags.
#[derive(Debug, Clone, Copy, PartialEq, Eq, Structural)]
pub struct RiskDataQualityFlags(pub u32);

impl RiskDataQualityFlags {
    /// No risk-specific quality flags are set.
    pub fn empty() -> (f: Self)
        ensures
            f.0 == 0,
    {
        RiskDataQualityFlags(0)
    }

    /// FX conversion data is stale.
    pub fn stale_fx_rate() -> (f: Self)
        ensures
            f.0 == 1,
    {
        RiskDataQualityFlags(1)
    }

    /// Aggregate exposure snapshot is stale.
    pub fn stale_aggregate() -> (f: Self)
        ensures
            f.0 == 2,
    {
        RiskDataQualityFlags(2)
    }

    /// Multiple sources disagree outside configured tolerance.
    pub fn source_disagreement() -> (f: Self)
        ensures
            f.0 == 4,
    {
        RiskDataQualityFlags(4)
    }

    /// Returns `true` if any flags are set.
    #[verifier::allow_in_spec]
    pub fn any(self) -> bool
        returns
            self.0 != 0,
    {
        self.0 != 0
    }

    /// Returns the raw bit representation.
    #[verifier::allow_in_spec]
    pub fn bits(self) -> u32
        returns
            self.0,
    {
        self.0
    }

    /// Returns the union of two flag sets.
    pub fn union(self, other: Self) -> (u: Self)
        ensures
            u.0 == self.0 | other.0,
            u.any() <==> self.any() || other.any(),
    {
        let a = self.0;
        let b = other.0;
        let bits = a | b;
        assert(bits != 0 <==> a != 0 || b != 0) by (bit_vector)
            requires
                bits == a | b,
        ;
        RiskDataQualityFlags(bits)
    }
}

impl Default for RiskDataQualityFlags {
    fn default() -> (f: Self)
        ensures
            f.0 == 0,
    {
        RiskDataQualityFlags(0)
    }
}

/// Combined upstream and risk-local market data quality.
///
/// The upstream feed flags are held as their raw bit pattern; any set bit
/// marks the data as unsafe.
#[derive(Debug, Clone, Copy, PartialEq, Eq, Structural)]
pub struct DataQuality {
    /// Raw bits of the upstream feed-quality flags.
    pub upstream_flags: u32,
    /// Risk-specific quality flags not represented upstream.
    pub risk_flags: RiskDataQualityFlags,
}

impl Default for DataQuality {
    fn default() -> (q: Self)
        ensures
            q.upstream_flags == 0,
            q.risk_flags.0 == 0,
    {
        Self::clean()
    }
}

impl DataQuality {
    /// Returns clean quality with no upstream or risk-local flags.
    pub fn clean() -> (q: Self)
        ensures
            q.upstream_flags == 0,
            q.risk_flags.0 == 0,
    {
        DataQuality { upstream_flags: 0, risk_flags: RiskDataQualityFlags(0) }
    }

    /// Creates data quality from the raw bits of upstream feed flags.
    pub fn from_upstream(upstream_flags: u32) -> (q: Self)
        ensures
            q.upstream_flags == upstream_flags,
            q.risk_flags.0 == 0,
    {
        DataQuality { upstream_flags, risk_flags: RiskDataQualityFlags(0) }
    }

    /// Returns whether no quality flags are set.
    #[verifier::allow_in_spec]
    pub fn is_clean(self) -> bool
        returns
            self.upstream_flags == 0 && self.risk_flags.0 == 0,
    {
        self.upstream_flags == 0 && !self.risk_flags.any()
    }
}

/// Timestamped market price with quality metadata.
#[derive(Debug, Clone, Copy, PartialEq, Eq, Structural)]
pub struct MarketPrice {
    /// Fixed-point price.
    pub price: Price,
    /// Observation timestamp.
    pub observed_at: Timestamp,
    /// Data quality flags.
    pub quality: DataQuality,
}

impl MarketPrice {
    /// Creates a clean market price.
    pub fn clean(price: Price, observed_at: Timestamp) -> (p: Self)
        ensures
            p.price == price,
            p.observed_at == observed_at,
            p.quality.is_clean(),
    {
        MarketPrice { price, observed_at, quality: DataQuality::clean() }
    }
}

/// Trust decision for one observed price: bad quality first, then staleness.
pub open spec fn trusted_market_price_spec(
    price: MarketPrice,
    now: Timestamp,
    max_age_nanos: u64,
    stale_reason: IndeterminateReason,
) -> Result<Price, IndeterminateReason> {
    if !price.quality.is_clean() {
        Err(IndeterminateReason::BadDataQuality)
    } else if saturating_age(price.observed_at.0, now.0) > max_age_nanos {
        Err(stale_reason)
    } else {
        Ok(price.price)
    }
}

/// Whether two source prices agree within `max_deviation_bps` basis points of
/// the larger absolute price. Two zero prices always agree.
pub open spec fn prices_agree_spec(primary: i64, secondary: i64, max_deviation_bps: u32) -> Result<
    (),
    IndeterminateReason,
> {
    let denominator = if abs_int(primary as int) >= abs_int(secondary as int) {
        abs_int(primary as int)
    } else {
        abs_int(secondary as int)
    };
    if denominator == 0 {
        Ok(())
    } else if abs_int(primary - secondary) * 10_000 / denominator <= max_deviation_bps {
        Ok(())
    } else {
        Err(IndeterminateReason::SourceDisagreement)
    }
}

/// Abstract content of a market snapshot.
pub struct MarketSnapshotView {
    /// Instrument prices, keyed by raw instrument id.
    pub prices: Map<u32, MarketPrice>,
    /// FX rates, keyed by [`CurrencyPair::key`].
    pub fx_rates: Map<u32, MarketPrice>,
    /// Maximum accepted instrument price age.
    pub max_price_age_nanos: u64,
    /// Maximum accepted FX rate age.
    pub max_fx_age_nanos: u64,
    /// Aggregate base-currency notional, if one was set.
    pub aggregate_notional: Option<Notional>,
    /// Quality of the aggregate snapshot.
    pub aggregate_quality: DataQuality,
    /// Observation time of the aggregate snapshot, if one was set.
    pub aggregate_observed_at: Option<Timestamp>,
    /// Maximum accepted aggregate snapshot age.
    pub max_aggregate_age_nanos: u64,
}

impl MarketSnapshotView {
    /// Trusted instrument price, or why there is none.
    pub open spec fn trusted_price(self, instrument_id: InstrumentId, now: Timestamp) -> Result<
        Price,
        IndeterminateReason,
    > {
        if !self.prices.contains_key(instrument_id.0) {
            Err(IndeterminateReason::MissingPrice)
        } else {
            trusted_market_price_spec(
                self.prices[instrument_id.0],
                now,
                self.max_price_age_nanos,
                IndeterminateReason::StalePrice,
            )
        }
    }

    /// Trusted FX rate, or why there is none.
    pub open spec fn trusted_fx_rate(self, pair: CurrencyPair, now: Timestamp) -> Result<
        Price,
        IndeterminateReason,
    > {
        if !self.fx_rates.contains_key(pair.key()) {
            Err(IndeterminateReason::MissingFxRate)
        } else {
            trusted_market_price_spec(
                self.fx_rates[pair.key()],
                now,
                self.max_fx_age_nanos,
                IndeterminateReason::StaleFxRate,
            )
        }
    }

    /// Notional converted through the trusted FX rate.
    pub open spec fn convert_notional(self, notional: Notional, pair: CurrencyPair, now: Timestamp) -> Result<
        Notional,
        IndeterminateReason,
    > {
        match self.trusted_fx_rate(pair, now) {
            Err(reason) => Err(reason),
            Ok(rate) => match notional_if_fits(notional.0 * rate.0) {
                Some(n) => Ok(n),
                None => Err(IndeterminateReason::ArithmeticOverflow),
            },
        }
    }

    /// Whether the aggregate snapshot exists and is young enough.
    pub open spec fn aggregate_is_fresh(self, now: Timestamp) -> bool {
        match self.aggregate_observed_at {
            Some(observed_at) => saturating_age(observed_at.0, now.0) <= self.max_aggregate_age_nanos,
            None => false,
        }
    }

    /// Trusted aggregate notional: missing, then bad quality, then staleness.
    pub open spec fn trusted_aggregate_notional(self, now: Timestamp) -> Result<
        Notional,
        IndeterminateReason,
    > {
        match self.aggregate_notional {
            None => Err(IndeterminateReason::MissingAggregateSnapshot),
            Some(notional) => if !self.aggregate_quality.is_clean() {
                Err(IndeterminateReason::BadDataQuality)
            } else if !self.aggregate_is_fresh(now) {
                Err(IndeterminateReason::StaleAggregateSnapshot)
            } else {
                Ok(notional)
            },
        }
    }

    /// Source agreement between two trusted instrument prices.
    pub open spec fn source_agreement(
        self,
        primary: InstrumentId,
        secondary: InstrumentId,
        max_deviation_bps: u32,
        now: Timestamp,
    ) -> Result<(), IndeterminateReason> {
        match self.trusted_price(primary, now) {
            Err(reason) => Err(reason),
            Ok(p) => match self.trusted_price(secondary, now) {
                Err(reason) => Err(reason),
                Ok(s) => prices_agree_spec(p.0, s.0, max_deviation_bps),
            },
        }
    }
}

/// Immutable market snapshot consumed by risk checks.
#[derive(Debug)]
pub struct MarketSnapshot {
    prices: HashMap<u32, MarketPrice>,
    fx_rates: HashMap<u32, MarketPrice>,
    max_price_age_nanos: u64,
    max_fx_age_nanos: u64,
    aggregate_notional: Option<Notional>,
    aggregate_quality: DataQuality,
    aggregate_observed_at: Option<Timestamp>,
    max_aggregate_age_nanos: u64,
}

impl View for MarketSnapshot {
    type V = MarketSnapshotView;

    closed spec fn view(&self) -> MarketSnapshotView {
        MarketSnapshotView {
            prices: self.prices@,
            fx_rates: self.fx_rates@,
            max_price_age_nanos: self.max_price_age_nanos,
            max_fx_age_nanos: self.max_fx_age_nanos,
            aggregate_notional: self.aggregate_notional,
            aggregate_quality: self.aggregate_quality,
            aggregate_observed_at: self.aggregate_observed_at,
            max_aggregate_age_nanos: self.max_aggregate_age_nanos,
        }
    }
}

impl Clone for MarketSnapshot {
    fn clone(&self) -> (m: Self)
        ensures
            m@ == self@,
    {
        MarketSnapshot {
            prices: self.prices.clone(),
            fx_rates: self.fx_rates.clone(),
            max_price_age_nanos: self.max_price_age_nanos,
            max_fx_age_nanos: self.max_fx_age_nanos,
            aggregate_notional: self.aggregate_notional,
            aggregate_quality: self.aggregate_quality,
            aggregate_observed_at: self.aggregate_observed_at,
            max_aggregate_age_nanos: self.max_aggregate_age_nanos,
        }
    }
}

fn trusted_market_price(
    price: MarketPrice,
    now: Timestamp,
    max_age_nanos: u64,
    stale_reason: IndeterminateReason,
) -> (r: Result<Price, IndeterminateReason>)
    ensures
        r == trusted_market_price_spec(price, now, max_age_nanos, stale_reason),
{
    if !price.quality.is_clean() {
        return Err(IndeterminateReason::BadDataQuality);
    }
    if price.observed_at.age_at(now) > max_age_nanos {
        return Err(stale_reason);
    }
    Ok(price.price)
}

fn abs_i128(v: i128) -> (r: u128)
    requires
        v > i128::MIN,
    ensures
        r == abs_int(v as int),
{
    if v < 0 {
        (-v) as u128
    } else {
        v as u128
    }
}

fn prices_agree(primary: Price, secondary: Price, max_deviation_bps: u32) -> (r: Result<
    (),
    IndeterminateReason,
>)
    ensures
        r == prices_agree_spec(primary.0, secondary.0, max_deviation_bps),
{
    let p = primary.0 as i128;
    let s = secondary.0 as i128;
    let p_abs = abs_i128(p);
    let s_abs = abs_i128(s);
    let denominator = if p_abs >= s_abs {
        p_abs
    } else {
        s_abs
    };
    if denominator == 0 {
        return Ok(());
    }
    let deviation = abs_i128(p - s);
    assert(deviation <= 0x1_0000_0000_0000_0000);
    let scaled = deviation * 10_000;
    let deviation_bps = scaled / denominator;
    if deviation_bps <= max_deviation_bps as u128 {
        Ok(())
    } else {
        Err(IndeterminateReason::SourceDisagreement)
    }
}

/// The source-agreement check treats its two prices symmetrically, and its
/// only failure is `SourceDisagreement`: it never reports an overflow.
pub proof fn lemma_prices_agree_symmetric(a: i64, b: i64, max_deviation_bps: u32)
    ensures
        prices_agree_spec(a, b, max_deviation_bps) == prices_agree_spec(b, a, max_deviation_bps),
        prices_agree_spec(a, b, max_deviation_bps) is Ok || prices_agree_spec(a, b, max_deviation_bps)
            == Err::<(), IndeterminateReason>(IndeterminateReason::SourceDisagreement),
{
    assert(abs_int(a - b) == abs_int(b - a));
}

/// Source agreement is symmetric: when both instrument prices are trusted,
/// comparing `primary` with `secondary` gives the same answer as comparing
/// `secondary` with `primary`.
pub proof fn lemma_source_agreement_symmetric(
    view: MarketSnapshotView,
    primary: InstrumentId,
    secondary: InstrumentId,
    max_deviation_bps: u32,
    now: Timestamp,
)
    requires
        view.trusted_price(primary, now) is Ok,
        view.trusted_price(secondary, now) is Ok,
    ensures
        view.source_agreement(primary, secondary, max_deviation_bps, now) == view.source_agreement(
            secondary,
            primary,
            max_deviation_bps,
            now,
        ),
{
    lemma_prices_agree_symmetric(
        view.trusted_price(primary, now)->Ok_0.0,
        view.trusted_price(secondary, now)->Ok_0.0,
        max_deviation_bps,
    );
}

/// A price inserted clean and observed no longer ago than the snapshot's
/// tolerance is the trusted price; any quality flag makes it untrusted.
pub proof fn lemma_inserted_price_trust(
    view: MarketSnapshotView,
    instrument_id: InstrumentId,
    price: MarketPrice,
    now: Timestamp,
)
    ensures
        ({
            let after = MarketSnapshotView {
                prices: view.prices.insert(instrument_id.0, price),
                ..view
            };
            &&& (price.quality.is_clean() && saturating_age(price.observed_at.0, now.0)
                <= view.max_price_age_nanos) ==> after.trusted_price(instrument_id, now) == Ok::<
                Price,
                IndeterminateReason,
            >(price.price)
            &&& !price.quality.is_clean() ==> after.trusted_price(instrument_id, now) == Err::<
                Price,
                IndeterminateReason,
            >(IndeterminateReason::BadDataQuality)
        }),
{
}

impl MarketSnapshot {
    /// Creates an empty market snapshot with explicit freshness tolerances.
    pub fn new(max_price_age_nanos: u64, max_fx_age_nanos: u64, max_aggregate_age_nanos: u64) -> (m:
        Self)
        ensures
            m@.prices == Map::<u32, MarketPrice>::empty(),
            m@.fx_rates == Map::<u32, MarketPrice>::empty(),
            m@.max_price_age_nanos == max_price_age_nanos,
            m@.max_fx_age_nanos == max_fx_age_nanos,
            m@.aggregate_notional.is_none(),
            m@.aggregate_quality.is_clean(),
            m@.aggregate_observed_at.is_none(),
            m@.max_aggregate_age_nanos == max_aggregate_age_nanos,
    {
        MarketSnapshot {
            prices: HashMap::new(),
            fx_rates: HashMap::new(),
            max_price_age_nanos,
            max_fx_age_nanos,
            aggregate_notional: None,
            aggregate_quality: DataQuality::clean(),
            aggregate_observed_at: None,
            max_aggregate_age_nanos,
        }
    }

    /// Inserts or replaces an instrument price.
    pub fn insert_price(&mut self, instrument_id: InstrumentId, price: MarketPrice)
        ensures
            final(self)@ == (MarketSnapshotView {
                prices: old(self)@.prices.insert(instrument_id.0, price),
                ..old(self)@
            }),
    {
        self.prices.insert(instrument_id.0, price);
    }

    /// Inserts or replaces an FX rate.
    pub fn insert_fx_rate(&mut self, pair: CurrencyPair, price: MarketPrice)
        ensures
            final(self)@ == (MarketSnapshotView {
                fx_rates: old(self)@.fx_rates.insert(pair.key(), price),
                ..old(self)@
            }),
    {
        let key = pair.pair_key();
        self.fx_rates.insert(key, price);
    }

    /// Sets the aggregate base-currency notional snapshot.
    pub fn set_aggregate_notional(
        &mut self,
        notional: Notional,
        observed_at: Timestamp,
        quality: DataQuality,
    )
        ensures
            final(self)@ == (MarketSnapshotView {
                aggregate_notional: Some(notional),
                aggregate_quality: quality,
                aggregate_observed_at: Some(observed_at),
                ..old(self)@
            }),
    {
        self.aggregate_notional = Some(notional);
        self.aggregate_quality = quality;
        self.aggregate_observed_at = Some(observed_at);
    }

    /// Returns a trusted instrument price or an indeterminate reason.
    pub fn trusted_price(&self, instrument_id: InstrumentId, now: Timestamp) -> (r: Result<
        Price,
        IndeterminateReason,
    >)
        ensures
            r == self@.trusted_price(instrument_id, now),
    {
        match self.prices.get(&instrument_id.0) {
            None => Err(IndeterminateReason::MissingPrice),
            Some(price) => trusted_market_price(
                *price,
                now,
                self.max_price_age_nanos,
                IndeterminateReason::StalePrice,
            ),
        }
    }

    /// Returns a trusted FX rate or an indeterminate reason.
    pub fn trusted_fx_rate(&self, pair: CurrencyPair, now: Timestamp) -> (r: Result<
        Price,
        IndeterminateReason,
    >)
        ensures
            r == self@.trusted_fx_rate(pair, now),
    {
        let key = pair.pair_key();
        match self.fx_rates.get(&key) {
            None => Err(IndeterminateReason::MissingFxRate),
            Some(price) => trusted_market_price(
                *price,
                now,
                self.max_fx_age_nanos,
                IndeterminateReason::StaleFxRate,
            ),
        }
    }

    /// Converts notional through a trusted FX rate.
    ///
    /// The raw fixed-point scale is intentionally owned by the caller's
    /// instrument and currency configuration. This method validates freshness,
    /// data quality, and overflow before returning the raw product.
    pub fn convert_notional(&self, notional: Notional, pair: CurrencyPair, now: Timestamp) -> (r:
        Result<Notional, IndeterminateReason>)
        ensures
            r == self@.convert_notional(notional, pair, now),
    {
        let fx_rate = match self.trusted_fx_rate(pair, now) {
            Ok(rate) => rate,
            Err(reason) => return Err(reason),
        };
        match notional.checked_mul_price(fx_rate) {
            Some(n) => Ok(n),
            None => Err(IndeterminateReason::ArithmeticOverflow),
        }
    }

    /// Verifies that two instrument price sources agree within a BPS tolerance.
    ///
    /// Both prices must first pass the snapshot's normal price trust checks.
    /// Tolerance is measured against the larger absolute source price so the
    /// check is symmetric.
    pub fn validate_source_agreement(
        &self,
        primary: InstrumentId,
        secondary: InstrumentId,
        max_deviation_bps: u32,
        now: Timestamp,
    ) -> (r: Result<(), IndeterminateReason>)
        ensures
            r == self@.source_agreement(primary, secondary, max_deviation_bps, now),
    {
        let primary = match self.trusted_price(primary, now) {
            Ok(p) => p,
            Err(reason) => return Err(reason),
        };
        let secondary = match self.trusted_price(secondary, now) {
            Ok(p) => p,
            Err(reason) => return Err(reason),
        };
        prices_agree(primary, secondary, max_deviation_bps)
    }

    /// Returns whether the aggregate exposure snapshot is fresh enough.
    pub fn aggregate_is_fresh(&self, now: Timestamp) -> (r: bool)
        ensures
            r == self@.aggregate_is_fresh(now),
    {
        match self.aggregate_observed_at {
            Some(observed_at) => observed_at.age_at(now) <= self.max_aggregate_age_nanos,
            None => false,
        }
    }

    /// Returns a trusted aggregate base-currency notional snapshot.
    pub fn trusted_aggregate_notional(&self, now: Timestamp) -> (r: Result<
        Notional,
        IndeterminateReason,
    >)
        ensures
            r == self@.trusted_aggregate_notional(now),
    {
        let notional = match self.aggregate_notional {
            Some(n) => n,
            None => return Err(IndeterminateReason::MissingAggregateSnapshot),
        };
        if !self.aggregate_quality.is_clean() {
            return Err(IndeterminateReason::BadDataQuality);
        }
        if !self.aggregate_is_fresh(now) {
            return Err(IndeterminateReason::StaleAggregateSnapshot);
        }
        Ok(notional)
    }
}

/// Source agreement only holds between trusted prices: it succeeds only when
/// both prices are present, clean and no older than the price tolerance,
/// and when either is untrusted the answer is that price's trust error,
/// the primary's first.
pub proof fn lemma_source_agreement_needs_trusted_prices(
    view: MarketSnapshotView,
    primary: InstrumentId,
    secondary: InstrumentId,
    max_deviation_bps: u32,
    now: Timestamp,
)
    ensures
        view.source_agreement(primary, secondary, max_deviation_bps, now) is Ok ==> {
            &&& view.prices.contains_key(primary.0)
            &&& view.prices.contains_key(secondary.0)
            &&& view.prices[primary.0].quality.upstream_flags == 0
            &&& view.prices[primary.0].quality.risk_flags.0 == 0
            &&& view.prices[secondary.0].quality.upstream_flags == 0
            &&& view.prices[secondary.0].quality.risk_flags.0 == 0
            &&& now.0 < view.prices[primary.0].observed_at.0 || now.0
                - view.prices[primary.0].observed_at.0 <= view.max_price_age_nanos
            &&& now.0 < view.prices[secondary.0].observed_at.0 || now.0
                - view.prices[secondary.0].observed_at.0 <= view.max_price_age_nanos
        },
        view.source_agreement(primary, secondary, max_deviation_bps, now) is Ok ==> view.trusted_price(
            primary,
            now,
        ) is Ok && view.trusted_price(secondary, now) is Ok,
        view.trusted_price(primary, now) is Err ==> view.source_agreement(
            primary,
            secondary,
            max_deviation_bps,
            now,
        ) == Err::<(), IndeterminateReason>(view.trusted_price(primary, now)->Err_0),
        view.trusted_price(primary, now) is Ok && view.trusted_price(secondary, now) is Err
            ==> view.source_agreement(primary, secondary, max_deviation_bps, now) == Err::<
            (),
            IndeterminateReason,
        >(view.trusted_price(secondary, now)->Err_0),
{
}

} // verus!
