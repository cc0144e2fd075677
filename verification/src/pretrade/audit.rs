//! Audit records for pretrade gate operations.
use vstd::prelude::*;

use crate::instrument::AssetClass;
use crate::pretrade::gate::{EvaluateRequest, LimitTableSummary};
use crate::types::{InstrumentId, Notional, Price, Qty, Timestamp};
use crate::verdict::RiskVerdict;

verus! {

/// Audit record emitted for an evaluated order.
#[derive(Debug, Clone, PartialEq, Eq, Structural)]
pub struct OrderAuditRecord {
    /// Instrument identity evaluated.
    pub instrument_id: InstrumentId,
    /// Asset class evaluated.
    pub asset_class: AssetClass,
    /// Submitted order quantity.
    pub qty: Qty,
    /// Position before the order.
    pub current_position: Qty,
    /// Available margin supplied for the account or book.
    pub available_margin: Notional,
    /// Submitted order price.
    pub order_price: Price,
    /// Evaluation timestamp.
    pub evaluated_at: Timestamp,
    /// Final gate verdict.
    pub verdict: RiskVerdict,
}

impl OrderAuditRecord {
    /// Builds an order audit record from the request and verdict.
    pub fn from_evaluation(request: EvaluateRequest<'_>, verdict: RiskVerdict) -> (r: Self)
        ensures
            r == (OrderAuditRecord {
                instrument_id: request.instrument.id_spec(),
                asset_class: request.instrument.asset_class_spec(),
                qty: request.qty,
                current_position: request.current_position,
                available_margin: request.available_margin,
                order_price: request.order_price,
                evaluated_at: request.now,
                verdict,
            }),
    {
        OrderAuditRecord {
            instrument_id: request.instrument.id(),
            asset_class: request.instrument.asset_class(),
            qty: request.qty,
            current_position: request.current_position,
            available_margin: request.available_margin,
            order_price: request.order_price,
            evaluated_at: request.now,
            verdict,
        }
    }
}

/// Audit record emitted when the limit snapshot is replaced.
#[derive(Debug, Clone, PartialEq, Eq)]
pub struct LimitChangeAuditRecord {
    /// Operator, adapter, or process responsible for the change.
    pub actor: String,
    /// Change timestamp.
    pub changed_at: Timestamp,
    /// Previous limit-table shape.
    pub previous: LimitTableSummary,
    /// New limit-table shape.
    pub current: LimitTableSummary,
}

/// Audit record emitted when trading state changes.
#[derive(Debug, Clone, PartialEq, Eq)]
pub struct TradingStateAuditRecord {
    /// Operator, adapter, or process responsible for the change.
    pub actor: String,
    /// Change timestamp.
    pub changed_at: Timestamp,
    /// Previous trading-enabled state.
    pub previous_enabled: bool,
    /// New trading-enabled state.
    pub current_enabled: bool,
}

/// Unified pretrade audit event.
#[derive(Debug, Clone, PartialEq, Eq)]
pub enum GateAuditRecord {
    /// An order was evaluated.
    OrderEvaluation(OrderAuditRecord),
    /// The active limit snapshot changed.
    LimitChange(LimitChangeAuditRecord),
    /// The trading-enabled state changed.
    TradingStateChange(TradingStateAuditRecord),
}

/// The records a log holds after `records` are pushed, in order, onto a log
/// holding `start`.
pub open spec fn log_after_pushes(start: Seq<GateAuditRecord>, records: Seq<GateAuditRecord>) -> Seq<
    GateAuditRecord,
>
    decreases records.len(),
{
    if records.len() == 0 {
        start
    } else {
        log_after_pushes(start, records.drop_last()).push(records.last())
    }
}

/// Nothing is lost, reordered or duplicated: after any sequence of pushes a
/// log holds its old records followed by the pushed ones, so a new log hands
/// back, from `records` or `into_records`, exactly the records pushed.
pub proof fn lemma_log_after_pushes(start: Seq<GateAuditRecord>, records: Seq<GateAuditRecord>)
    ensures
        log_after_pushes(start, records) == start + records,
        log_after_pushes(Seq::empty(), records) == records,
    decreases records.len(),
{
    if records.len() > 0 {
        lemma_log_after_pushes(start, records.drop_last());
        lemma_log_after_pushes(Seq::empty(), records.drop_last());
        assert(start + records =~= (start + records.drop_last()).push(records.last()));
        assert(records =~= records.drop_last().push(records.last()));
    } else {
        assert(start + records =~= start);
    }
}

/// In-memory audit collector useful for tests and adapters.
#[derive(Debug, Clone, PartialEq, Eq)]
pub struct InMemoryAuditLog {
    records: Vec<GateAuditRecord>,
}

impl View for InMemoryAuditLog {
    type V = Seq<GateAuditRecord>;

    /// The records, oldest first.
    closed spec fn view(&self) -> Seq<GateAuditRecord> {
        self.records@
    }
}

impl Default for InMemoryAuditLog {
    fn default() -> (log: Self)
        ensures
            log@ == Seq::<GateAuditRecord>::empty(),
    {
        Self::new()
    }
}

impl InMemoryAuditLog {
    /// Creates an empty audit log.
    pub fn new() -> (log: Self)
        ensures
            log@ == Seq::<GateAuditRecord>::empty(),
    {
        InMemoryAuditLog { records: Vec::new() }
    }

    /// Appends an audit record.
    pub fn push(&mut self, record: GateAuditRecord)
        ensures
            final(self)@ == old(self)@.push(record),
    {
        self.records.push(record);
    }

    /// Returns all records in insertion order.
    pub fn records(&self) -> (r: &[GateAuditRecord])
        ensures
            r@ == self@,
    {
        self.records.as_slice()
    }

    /// Consumes the log and returns the owned records.
    pub fn into_records(self) -> (r: Vec<GateAuditRecord>)
        ensures
            r@ == self@,
    {
        self.records
    }
}

} // verus!
