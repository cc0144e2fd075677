use risk::{IndeterminateReason, InstrumentId, RegisterSymbolError, SymbolKey, SymbolRegistry};

fn key(venue: &str, symbol: &str) -> SymbolKey {
    SymbolKey {
        venue: venue.to_owned(),
        symbol: symbol.to_owned(),
    }
}

#[test]
fn registry_resolves_registered_symbol() {
    let mut registry = SymbolRegistry::new();
    let symbol = SymbolKey {
        venue: "XNYS".to_owned(),
        symbol: "IBM".to_owned(),
    };

    registry.register(symbol.clone(), InstrumentId(7)).unwrap();

    assert_eq!(registry.resolve(&symbol), Ok(InstrumentId(7)));
    assert_eq!(registry.symbol_for(InstrumentId(7)), Some(&symbol));
}

#[test]
fn unknown_symbol_fails_closed() {
    let registry = SymbolRegistry::new();
    let symbol = SymbolKey {
        venue: "XNYS".to_owned(),
        symbol: "IBM".to_owned(),
    };

    assert_eq!(
        registry.resolve(&symbol),
        Err(IndeterminateReason::UnknownSymbol)
    );
}

#[test]
fn registry_rejects_duplicates_without_changes() {
    let mut registry = SymbolRegistry::default();
    registry.register(key("XNYS", "IBM"), InstrumentId(3)).unwrap();
    assert_eq!(
        registry.register(key("XNYS", "IBM"), InstrumentId(4)),
        Err(RegisterSymbolError::DuplicateSymbol)
    );
    assert_eq!(
        registry.register(key("XNAS", "MSFT"), InstrumentId(3)),
        Err(RegisterSymbolError::DuplicateInstrumentId)
    );
    assert_eq!(registry.symbol_for(InstrumentId(4)), None);
    assert_eq!(registry.symbol_for(InstrumentId(1_000)), None);
    assert_eq!(
        registry.resolve(&key("XNAS", "MSFT")),
        Err(IndeterminateReason::UnknownSymbol)
    );
    registry.register(key("XNAS", "MSFT"), InstrumentId(0)).unwrap();
    assert_eq!(registry.resolve(&key("XNAS", "MSFT")), Ok(InstrumentId(0)));
    assert_eq!(registry.resolve(&key("XNAS", "IBM")), Err(IndeterminateReason::UnknownSymbol));
    assert_eq!(registry.resolve(&key("XNYS", "IBM")), Ok(InstrumentId(3)));
    assert_eq!(
        RegisterSymbolError::DuplicateSymbol.message(),
        "symbol is already registered"
    );
}
