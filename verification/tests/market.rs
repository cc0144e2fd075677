use of_core::DataQualityFlags;
use risk::{
    CurrencyId, CurrencyPair, DataQuality, IndeterminateReason, InstrumentId, MarketPrice,
    MarketSnapshot, Notional, Price, RiskDataQualityFlags, Timestamp,
};

#[test]
fn upstream_quality_flags_fail_closed() {
    let mut market = MarketSnapshot::new(10, 10, 10);
    market.insert_price(
        InstrumentId(1),
        MarketPrice {
            price: Price::new(100),
            observed_at: Timestamp(5),
            quality: DataQuality::from_upstream(DataQualityFlags::STALE_FEED.bits()),
        },
    );

    assert_eq!(
        market.trusted_price(InstrumentId(1), Timestamp(10)),
        Err(IndeterminateReason::BadDataQuality)
    );
}

#[test]
fn convert_notional_uses_trusted_fx_rate() {
    let mut market = MarketSnapshot::new(10, 10, 10);
    market.insert_fx_rate(
        CurrencyPair::new(CurrencyId(1), CurrencyId(2)),
        MarketPrice::clean(Price::new(2), Timestamp(5)),
    );

    assert_eq!(
        market.convert_notional(
            Notional::new(100),
            CurrencyPair::new(CurrencyId(1), CurrencyId(2)),
            Timestamp(10)
        ),
        Ok(Notional::new(200))
    );
}

#[test]
fn convert_notional_fails_closed_for_stale_fx() {
    let mut market = MarketSnapshot::new(10, 2, 10);
    market.insert_fx_rate(
        CurrencyPair::new(CurrencyId(1), CurrencyId(2)),
        MarketPrice::clean(Price::new(2), Timestamp(5)),
    );

    assert_eq!(
        market.convert_notional(
            Notional::new(100),
            CurrencyPair::new(CurrencyId(1), CurrencyId(2)),
            Timestamp(10)
        ),
        Err(IndeterminateReason::StaleFxRate)
    );
}

#[test]
fn source_agreement_accepts_prices_inside_tolerance() {
    let mut market = MarketSnapshot::new(10, 10, 10);
    market.insert_price(
        InstrumentId(1),
        MarketPrice::clean(Price::new(10_000), Timestamp(5)),
    );
    market.insert_price(
        InstrumentId(2),
        MarketPrice::clean(Price::new(10_020), Timestamp(5)),
    );

    assert_eq!(
        market.validate_source_agreement(InstrumentId(1), InstrumentId(2), 25, Timestamp(10)),
        Ok(())
    );
}

#[test]
fn source_agreement_fails_closed_outside_tolerance() {
    let mut market = MarketSnapshot::new(10, 10, 10);
    market.insert_price(
        InstrumentId(1),
        MarketPrice::clean(Price::new(10_000), Timestamp(5)),
    );
    market.insert_price(
        InstrumentId(2),
        MarketPrice::clean(Price::new(10_500), Timestamp(5)),
    );

    assert_eq!(
        market.validate_source_agreement(InstrumentId(1), InstrumentId(2), 25, Timestamp(10)),
        Err(IndeterminateReason::SourceDisagreement)
    );
}

#[test]
fn source_agreement_is_symmetric_and_handles_extremes() {
    let mut market = MarketSnapshot::new(10, 10, 10);
    market.insert_price(InstrumentId(1), MarketPrice::clean(Price::new(i64::MIN), Timestamp(5)));
    market.insert_price(InstrumentId(2), MarketPrice::clean(Price::new(i64::MAX), Timestamp(5)));
    market.insert_price(InstrumentId(3), MarketPrice::clean(Price::new(0), Timestamp(5)));
    market.insert_price(InstrumentId(4), MarketPrice::clean(Price::new(0), Timestamp(5)));
    assert_eq!(
        market.validate_source_agreement(InstrumentId(1), InstrumentId(2), 25, Timestamp(10)),
        Err(IndeterminateReason::SourceDisagreement)
    );
    assert_eq!(
        market.validate_source_agreement(InstrumentId(2), InstrumentId(1), 25, Timestamp(10)),
        Err(IndeterminateReason::SourceDisagreement)
    );
    assert_eq!(
        market.validate_source_agreement(InstrumentId(1), InstrumentId(2), 20_000, Timestamp(10)),
        Ok(())
    );
    assert_eq!(
        market.validate_source_agreement(InstrumentId(3), InstrumentId(4), 0, Timestamp(10)),
        Ok(())
    );
    assert_eq!(
        market.validate_source_agreement(InstrumentId(3), InstrumentId(9), 0, Timestamp(10)),
        Err(IndeterminateReason::MissingPrice)
    );
}

#[test]
fn trust_checks_report_each_reason() {
    let mut market = MarketSnapshot::new(10, 10, 10);
    assert_eq!(
        market.trusted_price(InstrumentId(1), Timestamp(10)),
        Err(IndeterminateReason::MissingPrice)
    );
    market.insert_price(InstrumentId(1), MarketPrice::clean(Price::new(100), Timestamp(0)));
    assert_eq!(
        market.trusted_price(InstrumentId(1), Timestamp(10)),
        Ok(Price::new(100))
    );
    assert_eq!(
        market.trusted_price(InstrumentId(1), Timestamp(11)),
        Err(IndeterminateReason::StalePrice)
    );
    let pair = CurrencyPair::new(CurrencyId(1), CurrencyId(2));
    assert_eq!(
        market.trusted_fx_rate(pair, Timestamp(10)),
        Err(IndeterminateReason::MissingFxRate)
    );
    market.insert_fx_rate(pair, MarketPrice::clean(Price::new(i64::MAX), Timestamp(10)));
    assert_eq!(
        market.trusted_fx_rate(CurrencyPair::new(CurrencyId(2), CurrencyId(1)), Timestamp(10)),
        Err(IndeterminateReason::MissingFxRate)
    );
    assert_eq!(
        market.convert_notional(Notional::new(2), pair, Timestamp(10)),
        Err(IndeterminateReason::ArithmeticOverflow)
    );
}

#[test]
fn aggregate_snapshot_checks_presence_quality_then_age() {
    let mut market = MarketSnapshot::new(10, 10, 10);
    assert_eq!(
        market.trusted_aggregate_notional(Timestamp(10)),
        Err(IndeterminateReason::MissingAggregateSnapshot)
    );
    assert!(!market.aggregate_is_fresh(Timestamp(10)));
    market.set_aggregate_notional(
        Notional::new(5),
        Timestamp(0),
        DataQuality {
            upstream_flags: DataQualityFlags::NONE.bits(),
            risk_flags: RiskDataQualityFlags::stale_aggregate(),
        },
    );
    assert_eq!(
        market.trusted_aggregate_notional(Timestamp(100)),
        Err(IndeterminateReason::BadDataQuality)
    );
    market.set_aggregate_notional(Notional::new(5), Timestamp(0), DataQuality::clean());
    assert_eq!(
        market.trusted_aggregate_notional(Timestamp(100)),
        Err(IndeterminateReason::StaleAggregateSnapshot)
    );
    assert_eq!(market.trusted_aggregate_notional(Timestamp(10)), Ok(Notional::new(5)));
}

#[test]
fn quality_flags_combine() {
    let both = RiskDataQualityFlags::stale_fx_rate().union(RiskDataQualityFlags::source_disagreement());
    assert_eq!(both.bits(), 5);
    assert!(both.any());
    assert!(!RiskDataQualityFlags::empty().any());
    assert!(DataQuality::clean().is_clean());
    assert!(!DataQuality::from_upstream(DataQualityFlags::ADAPTER_DEGRADED.bits()).is_clean());
}
