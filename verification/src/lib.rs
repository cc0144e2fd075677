//! Multi-asset risk checks over fixed-point values.
//!
//! The library holds the fixed-point identifiers, instruments, positions,
//! limits, market snapshots and verdict types; the synchronous pretrade gate
//! with its notional, aggregate exposure, position, margin and fat-finger
//! checks; the text limit-table format; audit and observability records; and
//! the integer parts of the portfolio analytics.
//!
//! Missing, stale, low-quality, unsupported or overflowing inputs fail
//! closed: they produce an indeterminate verdict, never a pass.
pub mod currency;
pub mod instrument;
pub mod latency;
pub mod market;
pub mod portfolio;
pub mod position;
pub mod pretrade;
pub mod schema;
pub mod symbol;
pub mod text;
pub mod types;
pub mod verdict;

pub use currency::{CurrencyId, CurrencyPair};
pub use instrument::{
    AssetClass, CryptoSpotSpec, CurrencySet, EquitySpec, FutureSpec, FxSpec, Instrument,
    InstrumentCatalog, InstrumentCatalogError, OptionSpec, PerpSpec, RiskExposure,
};
pub use market::{DataQuality, MarketPrice, MarketSnapshot, RiskDataQualityFlags};
pub use position::{Funding, MarginState};
pub use pretrade::audit::{
    GateAuditRecord, InMemoryAuditLog, LimitChangeAuditRecord, OrderAuditRecord,
    TradingStateAuditRecord,
};
pub use pretrade::gate::{EvaluateRequest, LimitTable, LimitTableSummary, PretradeGate};
pub use pretrade::limit_source::{
    parse_limit_table, LimitSource, ParseLimitTableError, ParseLimitTableErrorKind,
    StaticLimitSource,
};
pub use pretrade::observability::{
    AlertSeverity, GateMetrics, GateMetricsSnapshot, ObservedLimitChangeEvent, ObservedOrderEvent,
    ObservedTradingStateEvent, PretradeAlert, TraceContext,
};
pub use schema::{current_schema, SchemaDescriptor, SchemaRecordKind, SchemaVersion};
pub use symbol::{RegisterSymbolError, SymbolKey, SymbolRegistry};
pub use types::{InstrumentId, Notional, Price, Qty, Timestamp};
pub use verdict::{IndeterminateReason, RejectReason, RiskVerdict, RiskWeight};
