use risk::{
    CurrencyId, EquitySpec, FutureSpec, FxSpec, IndeterminateReason, Instrument,
    InstrumentCatalog, InstrumentCatalogError, InstrumentId, MarketPrice, MarketSnapshot,
    Notional, OptionSpec, Price, Qty, RiskExposure, RiskWeight, Timestamp,
};
use risk::instrument::CurrencySet;

#[test]
fn option_weight_is_indeterminate_in_v1() {
    let option = Instrument::Option(OptionSpec {
        instrument_id: InstrumentId(1),
        underlying_id: InstrumentId(2),
        settlement_currency: CurrencyId(840),
        expiry: Timestamp(1_000),
    });
    let market = MarketSnapshot::new(10, 10, 10);

    assert_eq!(
        option.risk_weight(Qty::new(10), &market, Timestamp(1)),
        RiskWeight::Indeterminate(IndeterminateReason::UnsupportedOption)
    );
}

#[test]
fn equity_weight_uses_trusted_price() {
    let equity = Instrument::Equity(EquitySpec {
        instrument_id: InstrumentId(1),
        settlement_currency: CurrencyId(840),
    });
    let mut market = MarketSnapshot::new(10, 10, 10);
    market.insert_price(
        InstrumentId(1),
        MarketPrice::clean(Price::new(50), Timestamp(5)),
    );

    assert_eq!(
        equity.risk_weight(Qty::new(2), &market, Timestamp(10)),
        RiskWeight::Linear(Notional::new(100))
    );
}

#[test]
fn risk_exposure_trait_delegates_to_instrument() {
    let equity = Instrument::Equity(EquitySpec {
        instrument_id: InstrumentId(1),
        settlement_currency: CurrencyId(840),
    });
    let mut market = MarketSnapshot::new(10, 10, 10);
    market.insert_price(
        InstrumentId(1),
        MarketPrice::clean(Price::new(50), Timestamp(5)),
    );

    assert_eq!(
        RiskExposure::risk_weight(&equity, Qty::new(2), &market, Timestamp(10)),
        RiskWeight::Linear(Notional::new(100))
    );
    assert_eq!(RiskExposure::settlement_currency(&equity), CurrencyId(840));
}

#[test]
fn catalog_rejects_duplicate_instrument_ids() {
    let equity = Instrument::Equity(EquitySpec {
        instrument_id: InstrumentId(1),
        settlement_currency: CurrencyId(840),
    });
    let mut catalog = InstrumentCatalog::new();

    catalog.insert(equity).unwrap();

    assert_eq!(
        catalog.insert(equity),
        Err(InstrumentCatalogError::DuplicateInstrumentId(InstrumentId(
            1
        )))
    );
    assert_eq!(catalog.get(InstrumentId(1)), Some(equity));
    assert_eq!(catalog.len(), 1);
}

#[test]
fn future_weight_uses_multiplier_and_missing_price_fails_closed() {
    let future = Instrument::Future(FutureSpec {
        instrument_id: InstrumentId(3),
        settlement_currency: CurrencyId(840),
        multiplier: 50,
    });
    let mut market = MarketSnapshot::new(10, 10, 10);
    assert_eq!(
        future.risk_weight(Qty::new(-2), &market, Timestamp(10)),
        RiskWeight::Indeterminate(IndeterminateReason::MissingPrice)
    );
    market.insert_price(InstrumentId(3), MarketPrice::clean(Price::new(7), Timestamp(10)));
    assert_eq!(
        future.risk_weight(Qty::new(-2), &market, Timestamp(10)),
        RiskWeight::Linear(Notional::new(700))
    );
    assert_eq!(
        future.risk_weight(Qty::new(i64::MAX), &market, Timestamp(10)),
        RiskWeight::Indeterminate(IndeterminateReason::ArithmeticOverflow)
    );
}

#[test]
fn currencies_collapse_duplicates_and_contain_settlement() {
    let fx = Instrument::SpotFx(FxSpec {
        instrument_id: InstrumentId(4),
        base_currency: CurrencyId(978),
        quote_currency: CurrencyId(840),
    });
    assert_eq!(fx.currencies().as_slice(), &[CurrencyId(978), CurrencyId(840)]);
    assert_eq!(fx.settlement_currency(), CurrencyId(840));

    let same = CurrencySet::two(CurrencyId(1), CurrencyId(1));
    assert_eq!(same.len(), 1);
    assert_eq!(same.as_slice(), &[CurrencyId(1)]);
    assert!(!same.is_empty());
}

#[test]
fn catalog_starts_empty_and_reports_message() {
    let catalog = InstrumentCatalog::new();
    assert!(catalog.is_empty());
    assert_eq!(catalog.get(InstrumentId(9)), None);
    assert_eq!(
        InstrumentCatalogError::DuplicateInstrumentId(InstrumentId(7)).message(),
        "duplicate instrument id 7"
    );
    assert_eq!(
        InstrumentCatalogError::DuplicateInstrumentId(InstrumentId(4_294_967_295)).message(),
        "duplicate instrument id 4294967295"
    );
}

#[test]
fn catalog_keeps_first_instrument_of_each_id() {
    let first = Instrument::Equity(EquitySpec {
        instrument_id: InstrumentId(1),
        settlement_currency: CurrencyId(840),
    });
    let clash = Instrument::Equity(EquitySpec {
        instrument_id: InstrumentId(1),
        settlement_currency: CurrencyId(978),
    });
    let other = Instrument::Equity(EquitySpec {
        instrument_id: InstrumentId(2),
        settlement_currency: CurrencyId(978),
    });
    let mut catalog = InstrumentCatalog::new();
    assert!(catalog.insert(first).is_ok());
    assert!(catalog.insert(clash).is_err());
    assert!(catalog.insert(other).is_ok());
    assert_eq!(catalog.get(InstrumentId(1)), Some(first));
    assert_eq!(catalog.get(InstrumentId(2)), Some(other));
    assert_eq!(catalog.get(InstrumentId(3)), None);
    assert_eq!(catalog.len(), 2);
}
