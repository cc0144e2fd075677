//! Pretrade gate and limit table.
use std::collections::HashMap;

use vstd::prelude::*;

use crate::instrument::{Instrument, RiskExposure};
use crate::market::MarketSnapshot;
use crate::pretrade::audit::{LimitChangeAuditRecord, OrderAuditRecord, TradingStateAuditRecord};
use crate::pretrade::checks::aggregate_notional::aggregate_verdict;
use crate::pretrade::checks::fat_finger::fat_finger_verdict;
use crate::pretrade::checks::margin::margin_verdict;
use crate::pretrade::checks::notional::per_order_verdict;
use crate::pretrade::checks::position_limit::position_verdict;
use crate::pretrade::checks::{aggregate_notional, fat_finger, margin, notional, position_limit};
use crate::pretrade::observability::{GateMetrics, GateMetricsSnapshot};
use crate::types::{InstrumentId, Notional, Price, Qty, Timestamp};
use crate::verdict::{IndeterminateReason, RejectReason, RiskVerdict, RiskWeight};

verus! {

broadcast use vstd::std_specs::hash::group_hash_axioms;

/// Abstract content of a limit table; per-instrument limits are keyed by raw
/// instrument id.
pub struct LimitTableView {
    /// Per-order notional limits.
    pub per_order_notional: Map<u32, Notional>,
    /// Aggregate base-currency notional limit, if configured.
    pub aggregate_notional: Option<Notional>,
    /// Absolute position limits.
    pub max_abs_position: Map<u32, Qty>,
    /// Fat-finger price bands in basis points.
    pub fat_finger_band_bps: Map<u32, u32>,
    /// Initial margin per unit of absolute position.
    pub initial_margin_per_unit: Map<u32, Notional>,
}

impl LimitTableView {
    /// A table with no limits.
    pub open spec fn empty() -> LimitTableView {
        LimitTableView {
            per_order_notional: Map::empty(),
            aggregate_notional: None,
            max_abs_position: Map::empty(),
            fat_finger_band_bps: Map::empty(),
            initial_margin_per_unit: Map::empty(),
        }
    }

    /// Every per-instrument map of the table is finite.
    pub open spec fn is_finite(self) -> bool {
        &&& self.per_order_notional.dom().finite()
        &&& self.max_abs_position.dom().finite()
        &&& self.fat_finger_band_bps.dom().finite()
        &&& self.initial_margin_per_unit.dom().finite()
    }

    /// The shape of the table: how many limits of each kind it holds.
    pub open spec fn summary(self) -> LimitTableSummary {
        LimitTableSummary {
            per_order_notional_limits: self.per_order_notional.len() as usize,
            aggregate_notional_limit: self.aggregate_notional,
            max_abs_position_limits: self.max_abs_position.len() as usize,
            fat_finger_bands: self.fat_finger_band_bps.len() as usize,
            initial_margin_rates: self.initial_margin_per_unit.len() as usize,
        }
    }
}

/// Immutable pretrade limit table.
#[derive(Debug)]
pub struct LimitTable {
    per_order_notional: HashMap<u32, Notional>,
    aggregate_notional: Option<Notional>,
    max_abs_position: HashMap<u32, Qty>,
    fat_finger_band_bps: HashMap<u32, u32>,
    initial_margin_per_unit: HashMap<u32, Notional>,
}

impl View for LimitTable {
    type V = LimitTableView;

    closed spec fn view(&self) -> LimitTableView {
        LimitTableView {
            per_order_notional: self.per_order_notional@,
            aggregate_notional: self.aggregate_notional,
            max_abs_position: self.max_abs_position@,
            fat_finger_band_bps: self.fat_finger_band_bps@,
            initial_margin_per_unit: self.initial_margin_per_unit@,
        }
    }
}

impl Clone for LimitTable {
    fn clone(&self) -> (t: Self)
        ensures
            t@ == self@,
            t@.is_finite(),
    {
        LimitTable {
            per_order_notional: self.per_order_notional.clone(),
            aggregate_notional: self.aggregate_notional,
            max_abs_position: self.max_abs_position.clone(),
            fat_finger_band_bps: self.fat_finger_band_bps.clone(),
            initial_margin_per_unit: self.initial_margin_per_unit.clone(),
        }
    }
}

impl Default for LimitTable {
    fn default() -> (t: Self)
        ensures
            t@ == LimitTableView::empty(),
            t@.is_finite(),
    {
        Self::new()
    }
}

/// Shape of a limit table, recorded when the active table changes.
#[derive(Debug, Clone, Copy, PartialEq, Eq, Structural)]
pub struct LimitTableSummary {
    /// Number of per-order notional limits.
    pub per_order_notional_limits: usize,
    /// Aggregate notional limit, if configured.
    pub aggregate_notional_limit: Option<Notional>,
    /// Number of absolute position limits.
    pub max_abs_position_limits: usize,
    /// Number of fat-finger price bands.
    pub fat_finger_bands: usize,
    /// Number of initial margin rates.
    pub initial_margin_rates: usize,
}

impl LimitTable {
    /// Creates an empty limit table.
    pub fn new() -> (t: Self)
        ensures
            t@ == LimitTableView::empty(),
            t@.is_finite(),
    {
        LimitTable {
            per_order_notional: HashMap::new(),
            aggregate_notional: None,
            max_abs_position: HashMap::new(),
            fat_finger_band_bps: HashMap::new(),
            initial_margin_per_unit: HashMap::new(),
        }
    }

    /// Sets a per-order notional limit.
    pub fn set_per_order_notional(&mut self, instrument_id: InstrumentId, limit: Notional)
        ensures
            final(self)@ == (LimitTableView {
                per_order_notional: old(self)@.per_order_notional.insert(instrument_id.0, limit),
                ..old(self)@
            }),
            final(self)@.is_finite(),
    {
        self.per_order_notional.insert(instrument_id.0, limit);
    }

    /// Returns the per-order notional limit for an instrument.
    pub fn per_order_notional(&self, instrument_id: InstrumentId) -> (r: Option<Notional>)
        ensures
            r == self@.per_order_notional.get(instrument_id.0),
    {
        match self.per_order_notional.get(&instrument_id.0) {
            Some(limit) => Some(*limit),
            None => None,
        }
    }

    /// Sets the aggregate base-currency notional limit.
    pub fn set_aggregate_notional(&mut self, limit: Notional)
        ensures
            final(self)@ == (LimitTableView { aggregate_notional: Some(limit), ..old(self)@ }),
            final(self)@.is_finite(),
    {
        self.aggregate_notional = Some(limit);
    }

    /// Returns the aggregate base-currency notional limit.
    pub fn aggregate_notional_limit(&self) -> (r: Option<Notional>)
        ensures
            r == self@.aggregate_notional,
    {
        self.aggregate_notional
    }

    /// Sets an absolute position limit.
    pub fn set_max_abs_position(&mut self, instrument_id: InstrumentId, limit: Qty)
        ensures
            final(self)@ == (LimitTableView {
                max_abs_position: old(self)@.max_abs_position.insert(instrument_id.0, limit),
                ..old(self)@
            }),
            final(self)@.is_finite(),
    {
        self.max_abs_position.insert(instrument_id.0, limit);
    }

    /// Returns the absolute position limit for an instrument.
    pub fn max_abs_position(&self, instrument_id: InstrumentId) -> (r: Option<Qty>)
        ensures
            r == self@.max_abs_position.get(instrument_id.0),
    {
        match self.max_abs_position.get(&instrument_id.0) {
            Some(limit) => Some(*limit),
            None => None,
        }
    }

    /// Sets a fat-finger price band in basis points.
    pub fn set_fat_finger_band_bps(&mut self, instrument_id: InstrumentId, band_bps: u32)
        ensures
            final(self)@ == (LimitTableView {
                fat_finger_band_bps: old(self)@.fat_finger_band_bps.insert(instrument_id.0, band_bps),
                ..old(self)@
            }),
            final(self)@.is_finite(),
    {
        self.fat_finger_band_bps.insert(instrument_id.0, band_bps);
    }

    /// Returns the fat-finger price band for an instrument.
    pub fn fat_finger_band_bps(&self, instrument_id: InstrumentId) -> (r: Option<u32>)
        ensures
            r == self@.fat_finger_band_bps.get(instrument_id.0),
    {
        match self.fat_finger_band_bps.get(&instrument_id.0) {
            Some(band) => Some(*band),
            None => None,
        }
    }

    /// Sets the initial margin per unit of absolute position.
    pub fn set_initial_margin_per_unit(&mut self, instrument_id: InstrumentId, rate: Notional)
        ensures
            final(self)@ == (LimitTableView {
                initial_margin_per_unit: old(self)@.initial_margin_per_unit.insert(instrument_id.0, rate),
                ..old(self)@
            }),
            final(self)@.is_finite(),
    {
        self.initial_margin_per_unit.insert(instrument_id.0, rate);
    }

    /// Returns the initial margin per unit for an instrument.
    pub fn initial_margin_per_unit(&self, instrument_id: InstrumentId) -> (r: Option<Notional>)
        ensures
            r == self@.initial_margin_per_unit.get(instrument_id.0),
    {
        match self.initial_margin_per_unit.get(&instrument_id.0) {
            Some(rate) => Some(*rate),
            None => None,
        }
    }

    /// Returns the shape of the table.
    pub fn summary(&self) -> (s: LimitTableSummary)
        ensures
            s == self@.summary(),
            self@.is_finite(),
            s.per_order_notional_limits == self@.per_order_notional.len(),
            s.max_abs_position_limits == self@.max_abs_position.len(),
            s.fat_finger_bands == self@.fat_finger_band_bps.len(),
            s.initial_margin_rates == self@.initial_margin_per_unit.len(),
    {
        LimitTableSummary {
            per_order_notional_limits: self.per_order_notional.len(),
            aggregate_notional_limit: self.aggregate_notional,
            max_abs_position_limits: self.max_abs_position.len(),
            fat_finger_bands: self.fat_finger_band_bps.len(),
            initial_margin_rates: self.initial_margin_per_unit.len(),
        }
    }
}

/// Request evaluated by the pretrade gate.
#[derive(Debug, Clone, Copy)]
pub struct EvaluateRequest<'a> {
    /// Static instrument reference data.
    pub instrument: Instrument,
    /// Order quantity.
    pub qty: Qty,
    /// Position before the order.
    pub current_position: Qty,
    /// Available margin for the account or book.
    pub available_margin: Notional,
    /// Submitted order price.
    pub order_price: Price,
    /// Market snapshot.
    pub market: &'a MarketSnapshot,
    /// Current timestamp.
    pub now: Timestamp,
}

/// The first verdict of a sequence of checks that is not `Pass`.
pub open spec fn first_failure(verdict: RiskVerdict, next: RiskVerdict) -> RiskVerdict {
    if verdict is Pass {
        next
    } else {
        verdict
    }
}

/// Decision for an order while trading is enabled. The order's risk
/// weight must be linear; then the per-order notional, aggregate notional,
/// position, margin and fat-finger checks run in that order and the first
/// verdict that is not `Pass` is the answer.
pub open spec fn order_verdict(limits: LimitTableView, request: EvaluateRequest) -> RiskVerdict {
    match request.instrument.weight_spec(request.qty, request.market@, request.now) {
        RiskWeight::Indeterminate(reason) => RiskVerdict::Indeterminate(reason),
        RiskWeight::Linear(notional) => {
            let id = request.instrument.id_spec();
            first_failure(
                per_order_verdict(limits, id, notional),
                first_failure(
                    aggregate_verdict(limits, request.market@, request.now, notional),
                    first_failure(
                        position_verdict(limits, id, request.current_position, request.qty),
                        first_failure(
                            margin_verdict(
                                limits,
                                request.instrument,
                                request.current_position,
                                request.qty,
                                request.available_margin,
                            ),
                            fat_finger_verdict(
                                limits,
                                id,
                                request.order_price,
                                request.market@,
                                request.now,
                            ),
                        ),
                    ),
                ),
            )
        },
    }
}

/// Decision for an order: with trading disabled every order is rejected.
pub open spec fn gate_verdict(
    limits: LimitTableView,
    trading_enabled: bool,
    request: EvaluateRequest,
) -> RiskVerdict {
    if !trading_enabled {
        RiskVerdict::Reject(RejectReason::TradingDisabled)
    } else {
        order_verdict(limits, request)
    }
}

/// Fail closed: an order passes only when trading is enabled, the
/// instrument is linear (not an option), its price is trusted, its exposure
/// is computable, and every check passes with its limit configured.
pub proof fn lemma_pass_requires_every_check(
    limits: LimitTableView,
    trading_enabled: bool,
    request: EvaluateRequest,
)
    ensures
        gate_verdict(limits, trading_enabled, request) is Pass ==> {
            let id = request.instrument.id_spec();
            let weight = request.instrument.weight_spec(request.qty, request.market@, request.now);
            &&& trading_enabled
            &&& request.instrument.linear_multiplier() is Some
            &&& request.market@.trusted_price(id, request.now) is Ok
            &&& weight is Linear
            &&& limits.per_order_notional.contains_key(id.0)
            &&& limits.aggregate_notional is Some
            &&& limits.max_abs_position.contains_key(id.0)
            &&& limits.fat_finger_band_bps.contains_key(id.0)
            &&& request.market@.trusted_aggregate_notional(request.now) is Ok
            &&& per_order_verdict(limits, id, weight->Linear_0) is Pass
            &&& aggregate_verdict(limits, request.market@, request.now, weight->Linear_0) is Pass
            &&& position_verdict(limits, id, request.current_position, request.qty) is Pass
            &&& margin_verdict(
                limits,
                request.instrument,
                request.current_position,
                request.qty,
                request.available_margin,
            ) is Pass
            &&& fat_finger_verdict(limits, id, request.order_price, request.market@, request.now) is Pass
        },
{
}

/// A disabled gate rejects every order with `TradingDisabled`, whatever the
/// market or the limits.
pub proof fn lemma_disabled_gate_rejects(limits: LimitTableView, request: EvaluateRequest)
    ensures
        gate_verdict(limits, false, request) == RiskVerdict::Reject(RejectReason::TradingDisabled),
{
}

/// Options are never passed in v1: an enabled gate answers
/// `Indeterminate(UnsupportedOption)` for every option order.
pub proof fn lemma_option_orders_are_indeterminate(limits: LimitTableView, request: EvaluateRequest)
    requires
        request.instrument is Option,
    ensures
        gate_verdict(limits, true, request) == RiskVerdict::Indeterminate(
            IndeterminateReason::UnsupportedOption,
        ),
{
}

/// Abstract state of a gate.
pub struct PretradeGateView {
    /// Active limit table.
    pub limits: LimitTableView,
    /// Whether orders may pass at all.
    pub trading_enabled: bool,
    /// Counters.
    pub metrics: GateMetricsSnapshot,
}

/// Synchronous pretrade risk gate.
#[derive(Debug)]
pub struct PretradeGate {
    limits: LimitTable,
    trading_enabled: bool,
    metrics: GateMetrics,
}

impl View for PretradeGate {
    type V = PretradeGateView;

    closed spec fn view(&self) -> PretradeGateView {
        PretradeGateView {
            limits: self.limits@,
            trading_enabled: self.trading_enabled,
            metrics: self.metrics@,
        }
    }
}

impl PretradeGate {
    /// Creates an enabled gate from an immutable limit table snapshot.
    pub fn new(limits: LimitTable) -> (g: Self)
        ensures
            g@.limits == limits@,
            g@.trading_enabled,
            g@.metrics == GateMetricsSnapshot::zero(),
    {
        PretradeGate { limits, trading_enabled: true, metrics: GateMetrics::default() }
    }

    /// Replaces the active limit table snapshot.
    pub fn update_limits(&mut self, limits: LimitTable)
        ensures
            final(self)@ == (PretradeGateView { limits: limits@, ..old(self)@ }),
    {
        self.limits = limits;
    }

    /// Replaces the active limit table snapshot, counts the replacement and
    /// returns the audit record of the change.
    pub fn update_limits_with_audit(&mut self, limits: LimitTable, actor: &str, changed_at: Timestamp) -> (r:
        LimitChangeAuditRecord)
        ensures
            final(self)@.limits == limits@,
            final(self)@.trading_enabled == old(self)@.trading_enabled,
            final(self)@.metrics == (GateMetricsSnapshot {
                limit_updates: crate::pretrade::observability::bump(old(self)@.metrics.limit_updates),
                ..old(self)@.metrics
            }),
            r.actor@ == actor@,
            r.changed_at == changed_at,
            r.previous == old(self)@.limits.summary(),
            r.current == limits@.summary(),
    {
        let previous = self.limits.summary();
        let current = limits.summary();
        self.limits = limits;
        self.metrics.record_limit_update();
        LimitChangeAuditRecord { actor: actor.to_owned(), changed_at, previous, current }
    }

    fn set_trading_with_audit(&mut self, enabled: bool, actor: &str, changed_at: Timestamp) -> (r:
        TradingStateAuditRecord)
        ensures
            final(self)@.limits == old(self)@.limits,
            final(self)@.trading_enabled == enabled,
            final(self)@.metrics == (if old(self)@.trading_enabled != enabled {
                GateMetricsSnapshot {
                    trading_state_changes: crate::pretrade::observability::bump(
                        old(self)@.metrics.trading_state_changes,
                    ),
                    ..old(self)@.metrics
                }
            } else {
                old(self)@.metrics
            }),
            r.actor@ == actor@,
            r.changed_at == changed_at,
            r.previous_enabled == old(self)@.trading_enabled,
            r.current_enabled == enabled,
    {
        let previous_enabled = self.trading_enabled;
        self.trading_enabled = enabled;
        if previous_enabled != enabled {
            self.metrics.record_trading_state_change();
        }
        TradingStateAuditRecord {
            actor: actor.to_owned(),
            changed_at,
            previous_enabled,
            current_enabled: enabled,
        }
    }

    /// Disables trading; every order is then rejected. A change of state is
    /// counted.
    pub fn disable_trading_with_audit(&mut self, actor: &str, changed_at: Timestamp) -> (r:
        TradingStateAuditRecord)
        ensures
            final(self)@.limits == old(self)@.limits,
            !final(self)@.trading_enabled,
            final(self)@.metrics == (if old(self)@.trading_enabled {
                GateMetricsSnapshot {
                    trading_state_changes: crate::pretrade::observability::bump(
                        old(self)@.metrics.trading_state_changes,
                    ),
                    ..old(self)@.metrics
                }
            } else {
                old(self)@.metrics
            }),
            r.actor@ == actor@,
            r.changed_at == changed_at,
            r.previous_enabled == old(self)@.trading_enabled,
            !r.current_enabled,
    {
        self.set_trading_with_audit(false, actor, changed_at)
    }

    /// Enables trading. A change of state is counted.
    pub fn enable_trading_with_audit(&mut self, actor: &str, changed_at: Timestamp) -> (r:
        TradingStateAuditRecord)
        ensures
            final(self)@.limits == old(self)@.limits,
            final(self)@.trading_enabled,
            final(self)@.metrics == (if !old(self)@.trading_enabled {
                GateMetricsSnapshot {
                    trading_state_changes: crate::pretrade::observability::bump(
                        old(self)@.metrics.trading_state_changes,
                    ),
                    ..old(self)@.metrics
                }
            } else {
                old(self)@.metrics
            }),
            r.actor@ == actor@,
            r.changed_at == changed_at,
            r.previous_enabled == old(self)@.trading_enabled,
            r.current_enabled,
    {
        self.set_trading_with_audit(true, actor, changed_at)
    }

    /// Returns whether trading is enabled.
    pub fn trading_enabled(&self) -> (b: bool)
        ensures
            b == self@.trading_enabled,
    {
        self.trading_enabled
    }

    /// Returns the active limit table.
    pub fn limits(&self) -> (t: &LimitTable)
        ensures
            t@ == self@.limits,
    {
        &self.limits
    }

    /// Returns a point-in-time snapshot of the counters.
    pub fn metrics_snapshot(&self) -> (s: GateMetricsSnapshot)
        ensures
            s == self@.metrics,
            s.balanced(),
    {
        self.metrics.snapshot()
    }

    /// Evaluates an order request.
    pub fn evaluate(&self, request: EvaluateRequest<'_>) -> (v: RiskVerdict)
        ensures
            v == gate_verdict(self@.limits, self@.trading_enabled, request),
    {
        if !self.trading_enabled {
            return RiskVerdict::Reject(RejectReason::TradingDisabled);
        }
        let notional = match request.instrument.risk_weight(request.qty, request.market, request.now) {
            RiskWeight::Linear(notional) => notional,
            RiskWeight::Indeterminate(reason) => return RiskVerdict::Indeterminate(reason),
        };
        let instrument_id = request.instrument.id();
        let verdict = notional::check_per_order(&self.limits, instrument_id, notional);
        if !verdict.is_pass() {
            return verdict;
        }
        let verdict = aggregate_notional::check(&self.limits, request.market, request.now, notional);
        if !verdict.is_pass() {
            return verdict;
        }
        let verdict = position_limit::check(
            &self.limits,
            instrument_id,
            request.current_position,
            request.qty,
        );
        if !verdict.is_pass() {
            return verdict;
        }
        let verdict = margin::check(
            &self.limits,
            request.instrument,
            request.current_position,
            request.qty,
            request.available_margin,
        );
        if !verdict.is_pass() {
            return verdict;
        }
        fat_finger::check(&self.limits, instrument_id, request.order_price, request.market, request.now)
    }

    /// Evaluates an order request, counts the verdict and returns it with its
    /// audit record.
    pub fn evaluate_with_audit(&mut self, request: EvaluateRequest<'_>) -> (r: (
        RiskVerdict,
        OrderAuditRecord,
    ))
        ensures
            r.0 == gate_verdict(old(self)@.limits, old(self)@.trading_enabled, request),
            r.1 == (OrderAuditRecord {
                instrument_id: request.instrument.id_spec(),
                asset_class: request.instrument.asset_class_spec(),
                qty: request.qty,
                current_position: request.current_position,
                available_margin: request.available_margin,
                order_price: request.order_price,
                evaluated_at: request.now,
                verdict: r.0,
            }),
            final(self)@ == (PretradeGateView {
                metrics: old(self)@.metrics.after_verdict(r.0),
                ..old(self)@
            }),
    {
        let verdict = self.evaluate(request);
        self.metrics.record_verdict(verdict);
        (verdict, OrderAuditRecord::from_evaluation(request, verdict))
    }
}

} // verus!
