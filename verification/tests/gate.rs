use risk::{
    CurrencyId, DataQuality, EquitySpec, FutureSpec, IndeterminateReason, Instrument,
    InstrumentId, MarketPrice, MarketSnapshot, Notional, OptionSpec, Price, Qty, RejectReason,
    RiskVerdict, Timestamp,
};
use risk::{EvaluateRequest, LimitTable, PretradeGate};

fn request<'a>(instrument: Instrument, qty: Qty, market: &'a MarketSnapshot, now: Timestamp) -> EvaluateRequest<'a> {
    EvaluateRequest {
        instrument,
        qty,
        current_position: Qty::new(0),
        available_margin: Notional::new(1_000),
        order_price: Price::new(100),
        market,
        now,
    }
}

#[test]
fn option_order_is_indeterminate_without_risk_options_dependency() {
    let option = Instrument::Option(OptionSpec {
        instrument_id: InstrumentId(1),
        underlying_id: InstrumentId(2),
        settlement_currency: CurrencyId(840),
        expiry: Timestamp(1_000),
    });
    let mut limits = LimitTable::new();
    limits.set_per_order_notional(InstrumentId(1), Notional::new(1_000));
    let gate = PretradeGate::new(limits);
    let market = MarketSnapshot::new(10, 10, 10);

    let verdict = gate.evaluate(request(option, Qty::new(1), &market, Timestamp(1)));

    assert!(matches!(verdict, RiskVerdict::Indeterminate(_)));
}

#[test]
fn linear_order_passes_within_limit() {
    let equity = Instrument::Equity(EquitySpec {
        instrument_id: InstrumentId(1),
        settlement_currency: CurrencyId(840),
    });
    let mut limits = LimitTable::new();
    limits.set_per_order_notional(InstrumentId(1), Notional::new(1_000));
    limits.set_aggregate_notional(Notional::new(10_000));
    limits.set_max_abs_position(InstrumentId(1), Qty::new(100));
    limits.set_fat_finger_band_bps(InstrumentId(1), 500);
    let gate = PretradeGate::new(limits);
    let mut market = MarketSnapshot::new(10, 10, 10);
    market.insert_price(
        InstrumentId(1),
        MarketPrice::clean(Price::new(100), Timestamp(5)),
    );
    market.set_aggregate_notional(Notional::new(0), Timestamp(5), DataQuality::clean());

    let verdict = gate.evaluate(request(equity, Qty::new(5), &market, Timestamp(10)));

    assert_eq!(verdict, RiskVerdict::Pass);
}

#[test]
fn linear_order_rejects_above_limit() {
    let equity = Instrument::Equity(EquitySpec {
        instrument_id: InstrumentId(1),
        settlement_currency: CurrencyId(840),
    });
    let mut limits = LimitTable::new();
    limits.set_per_order_notional(InstrumentId(1), Notional::new(100));
    let gate = PretradeGate::new(limits);
    let mut market = MarketSnapshot::new(10, 10, 10);
    market.insert_price(
        InstrumentId(1),
        MarketPrice::clean(Price::new(100), Timestamp(5)),
    );

    let verdict = gate.evaluate(request(equity, Qty::new(5), &market, Timestamp(10)));

    assert!(matches!(verdict, RiskVerdict::Reject(_)));
}

fn full_limits() -> LimitTable {
    let mut limits = LimitTable::new();
    limits.set_per_order_notional(InstrumentId(1), Notional::new(1_000));
    limits.set_aggregate_notional(Notional::new(10_000));
    limits.set_max_abs_position(InstrumentId(1), Qty::new(100));
    limits.set_fat_finger_band_bps(InstrumentId(1), 500);
    limits.set_initial_margin_per_unit(InstrumentId(1), Notional::new(10));
    limits
}

fn clean_market() -> MarketSnapshot {
    let mut market = MarketSnapshot::new(10, 10, 10);
    market.insert_price(InstrumentId(1), MarketPrice::clean(Price::new(100), Timestamp(5)));
    market.set_aggregate_notional(Notional::new(0), Timestamp(5), DataQuality::clean());
    market
}

fn future() -> Instrument {
    Instrument::Future(FutureSpec {
        instrument_id: InstrumentId(1),
        settlement_currency: CurrencyId(840),
        multiplier: 1,
    })
}

#[test]
fn each_check_reports_its_reason() {
    let gate = PretradeGate::new(full_limits());
    let market = clean_market();
    let equity = Instrument::Equity(EquitySpec {
        instrument_id: InstrumentId(1),
        settlement_currency: CurrencyId(840),
    });

    let mut over_aggregate = clean_market();
    over_aggregate.set_aggregate_notional(Notional::new(9_800), Timestamp(5), DataQuality::clean());
    assert_eq!(
        gate.evaluate(request(equity, Qty::new(5), &over_aggregate, Timestamp(10))),
        RiskVerdict::Reject(RejectReason::AggregateNotionalLimit)
    );

    let mut positioned = request(equity, Qty::new(5), &market, Timestamp(10));
    positioned.current_position = Qty::new(-200);
    assert_eq!(gate.evaluate(positioned), RiskVerdict::Reject(RejectReason::PositionLimit));

    let mut fat = request(equity, Qty::new(5), &market, Timestamp(10));
    fat.order_price = Price::new(106);
    assert_eq!(gate.evaluate(fat), RiskVerdict::Reject(RejectReason::FatFinger));
    fat.order_price = Price::new(95);
    assert_eq!(gate.evaluate(fat), RiskVerdict::Pass);

    let mut margined = request(future(), Qty::new(5), &market, Timestamp(10));
    margined.available_margin = Notional::new(49);
    assert_eq!(gate.evaluate(margined), RiskVerdict::Reject(RejectReason::Margin));
    margined.available_margin = Notional::new(50);
    assert_eq!(gate.evaluate(margined), RiskVerdict::Pass);

    let no_limits = PretradeGate::new(LimitTable::new());
    assert_eq!(
        no_limits.evaluate(request(equity, Qty::new(5), &market, Timestamp(10))),
        RiskVerdict::Indeterminate(IndeterminateReason::MissingLimit)
    );
}

#[test]
fn audited_evaluation_counts_and_records() {
    let mut gate = PretradeGate::new(full_limits());
    let market = clean_market();
    let equity = Instrument::Equity(EquitySpec {
        instrument_id: InstrumentId(1),
        settlement_currency: CurrencyId(840),
    });

    let (verdict, record) = gate.evaluate_with_audit(request(equity, Qty::new(5), &market, Timestamp(10)));
    assert_eq!(verdict, RiskVerdict::Pass);
    assert_eq!(record.instrument_id, InstrumentId(1));
    assert_eq!(record.verdict, RiskVerdict::Pass);
    assert_eq!(record.evaluated_at, Timestamp(10));

    let change = gate.disable_trading_with_audit("ops", Timestamp(11));
    assert!(change.previous_enabled);
    assert!(!change.current_enabled);
    assert_eq!(change.actor, "ops");
    let (verdict, _) = gate.evaluate_with_audit(request(equity, Qty::new(5), &market, Timestamp(12)));
    assert_eq!(verdict, RiskVerdict::Reject(RejectReason::TradingDisabled));
    gate.enable_trading_with_audit("ops", Timestamp(13));
    assert!(gate.trading_enabled());

    let limit_change = gate.update_limits_with_audit(LimitTable::new(), "loader", Timestamp(14));
    assert_eq!(limit_change.previous.per_order_notional_limits, 1);
    assert_eq!(limit_change.previous.aggregate_notional_limit, Some(Notional::new(10_000)));
    assert_eq!(limit_change.current.per_order_notional_limits, 0);

    let snapshot = gate.metrics_snapshot();
    assert_eq!(snapshot.evaluations, 2);
    assert_eq!(snapshot.passes, 1);
    assert_eq!(snapshot.rejects, 1);
    assert_eq!(snapshot.trading_disabled_rejections, 1);
    assert_eq!(snapshot.trading_state_changes, 2);
    assert_eq!(snapshot.limit_updates, 1);
}
