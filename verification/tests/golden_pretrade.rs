use risk::{
    CurrencyId, DataQuality, EquitySpec, Instrument, InstrumentCatalog, InstrumentId, MarketPrice,
    MarketSnapshot, Notional, OptionSpec, Price, Qty, SymbolKey, SymbolRegistry, Timestamp,
};
use risk::{EvaluateRequest, LimitTable, PretradeGate};

const FIXTURES: &str = "scenario,venue,symbol,qty,current_position,available_margin,order_price,expected
within_limits,XNYS,IBM,5,0,1000,100,Pass
short_within_limits,XNYS,IBM,-5,0,1000,100,Pass
order_notional_breach,XNYS,IBM,11,0,1000,100,Reject(OrderNotionalLimit)
position_breach,XNYS,IBM,5,96,1000,100,Reject(PositionLimit)
price_band_breach,XNYS,IBM,5,0,1000,106,Reject(FatFinger)
option_unpriced,OPRA,IBM240119C00100000,1,0,1000,100,Indeterminate(UnsupportedOption)
quantity_overflow,XNYS,IBM,-9223372036854775808,0,1000,100,Indeterminate(ArithmeticOverflow)";

#[test]
fn golden_pretrade_verdicts_match() {
    let (registry, catalog) = reference_data();
    let gate = PretradeGate::new(limits());
    let market = market();

    for line in FIXTURES.lines().skip(1) {
        let fields = line.split(',').collect::<Vec<_>>();
        let [scenario, venue, symbol, qty, current_position, available_margin, order_price, expected] =
            fields.as_slice()
        else {
            panic!("invalid fixture row {line}");
        };
        let symbol = SymbolKey {
            venue: (*venue).to_owned(),
            symbol: (*symbol).to_owned(),
        };
        let instrument_id = registry.resolve(&symbol).unwrap();
        let instrument = catalog.get(instrument_id).unwrap();

        let verdict = gate.evaluate(EvaluateRequest {
            instrument,
            qty: Qty::new(qty.parse().unwrap()),
            current_position: Qty::new(current_position.parse().unwrap()),
            available_margin: Notional::new(available_margin.parse().unwrap()),
            order_price: Price::new(order_price.parse().unwrap()),
            market: &market,
            now: Timestamp(10),
        });

        assert_eq!(format!("{:?}", verdict), *expected, "{}", scenario);
    }
}

fn reference_data() -> (SymbolRegistry, InstrumentCatalog) {
    let mut registry = SymbolRegistry::new();
    let mut catalog = InstrumentCatalog::new();
    let equity = Instrument::Equity(EquitySpec {
        instrument_id: InstrumentId(1),
        settlement_currency: CurrencyId(840),
    });
    let option = Instrument::Option(OptionSpec {
        instrument_id: InstrumentId(2),
        underlying_id: InstrumentId(1),
        settlement_currency: CurrencyId(840),
        expiry: Timestamp(1_000),
    });

    registry
        .register(
            SymbolKey {
                venue: "XNYS".to_owned(),
                symbol: "IBM".to_owned(),
            },
            InstrumentId(1),
        )
        .unwrap();
    registry
        .register(
            SymbolKey {
                venue: "OPRA".to_owned(),
                symbol: "IBM240119C00100000".to_owned(),
            },
            InstrumentId(2),
        )
        .unwrap();
    catalog.insert(equity).unwrap();
    catalog.insert(option).unwrap();

    (registry, catalog)
}

fn limits() -> LimitTable {
    let mut limits = LimitTable::new();
    limits.set_per_order_notional(InstrumentId(1), Notional::new(1_000));
    limits.set_aggregate_notional(Notional::new(10_000));
    limits.set_max_abs_position(InstrumentId(1), Qty::new(100));
    limits.set_fat_finger_band_bps(InstrumentId(1), 500);
    limits.set_initial_margin_per_unit(InstrumentId(1), Notional::new(10));
    limits
}

fn market() -> MarketSnapshot {
    let mut market = MarketSnapshot::new(10, 10, 10);
    market.insert_price(
        InstrumentId(1),
        MarketPrice::clean(Price::new(100), Timestamp(5)),
    );
    market.insert_price(
        InstrumentId(2),
        MarketPrice::clean(Price::new(100), Timestamp(5)),
    );
    market.set_aggregate_notional(Notional::new(0), Timestamp(5), DataQuality::clean());
    market
}
