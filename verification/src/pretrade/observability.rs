//! Structured observability primitives for pretrade adapters.
use vstd::prelude::*;

use crate::pretrade::audit::{LimitChangeAuditRecord, OrderAuditRecord, TradingStateAuditRecord};
use crate::types::Timestamp;
use crate::verdict::{IndeterminateReason, RejectReason, RiskVerdict};

verus! {

/// `x + 1` modulo 2^64, as a counter increment.
pub open spec fn bump(x: u64) -> u64 {
    ((x + 1) % 0x1_0000_0000_0000_0000) as u64
}

/// Pretrade gate counters. Counters wrap around at `u64::MAX`.
#[derive(Debug)]
pub struct GateMetrics {
    evaluations: u64,
    passes: u64,
    rejects: u64,
    indeterminates: u64,
    trading_disabled_rejections: u64,
    limit_updates: u64,
    trading_state_changes: u64,
}

/// Exportable pretrade metrics snapshot.
#[derive(Debug, Clone, Copy, PartialEq, Eq, Structural)]
pub struct GateMetricsSnapshot {
    /// Total evaluated orders.
    pub evaluations: u64,
    /// Orders accepted by all checks.
    pub passes: u64,
    /// Orders rejected by deterministic limits or operational controls.
    pub rejects: u64,
    /// Orders failed closed because no trusted answer could be computed.
    pub indeterminates: u64,
    /// Rejections caused by disabled trading.
    pub trading_disabled_rejections: u64,
    /// Active limit table replacements.
    pub limit_updates: u64,
    /// Trading-enabled state transitions.
    pub trading_state_changes: u64,
}

impl GateMetricsSnapshot {
    /// All counters at zero.
    pub open spec fn zero() -> GateMetricsSnapshot {
        GateMetricsSnapshot {
            evaluations: 0,
            passes: 0,
            rejects: 0,
            indeterminates: 0,
            trading_disabled_rejections: 0,
            limit_updates: 0,
            trading_state_changes: 0,
        }
    }

    /// Every evaluation falls in exactly one verdict category: the number of
    /// evaluations is the sum of passes, rejects and indeterminates (modulo
    /// 2^64, as every counter wraps).
    pub open spec fn balanced(self) -> bool {
        (self.passes + self.rejects + self.indeterminates) % 0x1_0000_0000_0000_0000
            == self.evaluations as int
    }

    /// The snapshot after one more evaluated verdict.
    pub open spec fn after_verdict(self, verdict: RiskVerdict) -> GateMetricsSnapshot {
        let counted = GateMetricsSnapshot { evaluations: bump(self.evaluations), ..self };
        match verdict {
            RiskVerdict::Pass => GateMetricsSnapshot { passes: bump(self.passes), ..counted },
            RiskVerdict::Reject(reason) => if reason == RejectReason::TradingDisabled {
                GateMetricsSnapshot {
                    rejects: bump(self.rejects),
                    trading_disabled_rejections: bump(self.trading_disabled_rejections),
                    ..counted
                }
            } else {
                GateMetricsSnapshot { rejects: bump(self.rejects), ..counted }
            },
            RiskVerdict::Indeterminate(_) => GateMetricsSnapshot {
                indeterminates: bump(self.indeterminates),
                ..counted
            },
        }
    }
}

impl Default for GateMetricsSnapshot {
    fn default() -> (s: Self)
        ensures
            s == (GateMetricsSnapshot {
                evaluations: 0,
                passes: 0,
                rejects: 0,
                indeterminates: 0,
                trading_disabled_rejections: 0,
                limit_updates: 0,
                trading_state_changes: 0,
            }),
    {
        GateMetricsSnapshot {
            evaluations: 0,
            passes: 0,
            rejects: 0,
            indeterminates: 0,
            trading_disabled_rejections: 0,
            limit_updates: 0,
            trading_state_changes: 0,
        }
    }
}

proof fn lemma_mod_shift(x: int, y: int, m: int)
    requires
        m > 0,
    ensures
        (x % m + y) % m == (x + y) % m,
{
    vstd::arithmetic::div_mod::lemma_fundamental_div_mod(x, m);
    vstd::arithmetic::div_mod::lemma_mod_multiples_vanish(x / m, x % m + y, m);
}

/// Recording one more verdict keeps the counters balanced.
pub proof fn lemma_after_verdict_balanced(s: GateMetricsSnapshot, verdict: RiskVerdict)
    requires
        s.balanced(),
    ensures
        s.after_verdict(verdict).balanced(),
{
    let m: int = 0x1_0000_0000_0000_0000;
    let (p, r, i) = (s.passes as int, s.rejects as int, s.indeterminates as int);
    lemma_mod_shift(p + 1, r + i, m);
    lemma_mod_shift(r + 1, p + i, m);
    lemma_mod_shift(i + 1, p + r, m);
    lemma_mod_shift(p + r + i, 1, m);
    assert((p + 1) % m + r + i == (p + 1) % m + (r + i));
    assert(p + r + (i + 1) % m == (i + 1) % m + (p + r));
    assert(p + (r + 1) % m + i == (r + 1) % m + (p + i));
}

impl View for GateMetrics {
    type V = GateMetricsSnapshot;

    closed spec fn view(&self) -> GateMetricsSnapshot {
        GateMetricsSnapshot {
            evaluations: self.evaluations,
            passes: self.passes,
            rejects: self.rejects,
            indeterminates: self.indeterminates,
            trading_disabled_rejections: self.trading_disabled_rejections,
            limit_updates: self.limit_updates,
            trading_state_changes: self.trading_state_changes,
        }
    }
}

impl Default for GateMetrics {
    fn default() -> (m: Self)
        ensures
            m@ == (GateMetricsSnapshot {
                evaluations: 0,
                passes: 0,
                rejects: 0,
                indeterminates: 0,
                trading_disabled_rejections: 0,
                limit_updates: 0,
                trading_state_changes: 0,
            }),
    {
        GateMetrics {
            evaluations: 0,
            passes: 0,
            rejects: 0,
            indeterminates: 0,
            trading_disabled_rejections: 0,
            limit_updates: 0,
            trading_state_changes: 0,
        }
    }
}

impl GateMetrics {
    #[verifier::type_invariant]
    closed spec fn counts_balanced(self) -> bool {
        self@.balanced()
    }

    /// Records one evaluated verdict.
    pub fn record_verdict(&mut self, verdict: RiskVerdict)
        ensures
            final(self)@ == old(self)@.after_verdict(verdict),
    {
        proof {
            use_type_invariant(&*self);
            lemma_after_verdict_balanced(self@, verdict);
        }
        let evaluations = self.evaluations.wrapping_add(1);
        let mut passes = self.passes;
        let mut rejects = self.rejects;
        let mut indeterminates = self.indeterminates;
        let mut trading_disabled_rejections = self.trading_disabled_rejections;
        match verdict {
            RiskVerdict::Pass => {
                passes = passes.wrapping_add(1);
            },
            RiskVerdict::Reject(RejectReason::TradingDisabled) => {
                rejects = rejects.wrapping_add(1);
                trading_disabled_rejections = trading_disabled_rejections.wrapping_add(1);
            },
            RiskVerdict::Reject(_) => {
                rejects = rejects.wrapping_add(1);
            },
            RiskVerdict::Indeterminate(_) => {
                indeterminates = indeterminates.wrapping_add(1);
            },
        }
        *self = GateMetrics {
            evaluations,
            passes,
            rejects,
            indeterminates,
            trading_disabled_rejections,
            limit_updates: self.limit_updates,
            trading_state_changes: self.trading_state_changes,
        };
    }

    /// Records one limit table replacement.
    pub fn record_limit_update(&mut self)
        ensures
            final(self)@ == (GateMetricsSnapshot {
                limit_updates: bump(old(self)@.limit_updates),
                ..old(self)@
            }),
    {
        proof {
            use_type_invariant(&*self);
        }
        self.limit_updates = self.limit_updates.wrapping_add(1);
    }

    /// Records one trading-enabled state change.
    pub fn record_trading_state_change(&mut self)
        ensures
            final(self)@ == (GateMetricsSnapshot {
                trading_state_changes: bump(old(self)@.trading_state_changes),
                ..old(self)@
            }),
    {
        proof {
            use_type_invariant(&*self);
        }
        self.trading_state_changes = self.trading_state_changes.wrapping_add(1);
    }

    /// Returns a point-in-time metrics snapshot.
    pub fn snapshot(&self) -> (s: GateMetricsSnapshot)
        ensures
            s == self@,
            s.balanced(),
    {
        proof {
            use_type_invariant(self);
        }
        GateMetricsSnapshot {
            evaluations: self.evaluations,
            passes: self.passes,
            rejects: self.rejects,
            indeterminates: self.indeterminates,
            trading_disabled_rejections: self.trading_disabled_rejections,
            limit_updates: self.limit_updates,
            trading_state_changes: self.trading_state_changes,
        }
    }
}

/// Adapter-supplied trace context for correlating risk decisions.
#[derive(Debug, Clone, Copy, PartialEq, Eq, Structural)]
pub struct TraceContext {
    /// Adapter-local correlation identifier.
    pub correlation_id: u64,
    /// Monotonic adapter sequence number.
    pub sequence: u64,
    /// Timestamp at which the adapter created the event.
    pub observed_at: Timestamp,
}

/// Structured order-evaluation event suitable for logs or tracing exporters.
#[derive(Debug, Clone, PartialEq, Eq)]
pub struct ObservedOrderEvent {
    /// Adapter trace context.
    pub trace: TraceContext,
    /// Auditable order decision payload.
    pub audit: OrderAuditRecord,
    /// Metrics snapshot captured after the decision.
    pub metrics: GateMetricsSnapshot,
}

impl ObservedOrderEvent {
    /// Builds a structured order-evaluation event.
    pub fn new(trace: TraceContext, audit: OrderAuditRecord, metrics: GateMetricsSnapshot) -> (e: Self)
        ensures
            e.trace == trace,
            e.audit == audit,
            e.metrics == metrics,
    {
        ObservedOrderEvent { trace, audit, metrics }
    }
}

/// Structured limit-change event suitable for logs or tracing exporters.
#[derive(Debug, Clone, PartialEq, Eq)]
pub struct ObservedLimitChangeEvent {
    /// Adapter trace context.
    pub trace: TraceContext,
    /// Auditable limit-change payload.
    pub audit: LimitChangeAuditRecord,
    /// Metrics snapshot captured after the change.
    pub metrics: GateMetricsSnapshot,
}

/// Structured trading-state event suitable for logs or tracing exporters.
#[derive(Debug, Clone, PartialEq, Eq)]
pub struct ObservedTradingStateEvent {
    /// Adapter trace context.
    pub trace: TraceContext,
    /// Auditable trading-state payload.
    pub audit: TradingStateAuditRecord,
    /// Metrics snapshot captured after the change.
    pub metrics: GateMetricsSnapshot,
}

/// Operational alert severity.
#[derive(Debug, Clone, Copy, PartialEq, Eq, Structural)]
pub enum AlertSeverity {
    /// Informational event.
    Info,
    /// Operator-visible warning.
    Warning,
    /// Immediate action required.
    Critical,
}

/// Pretrade alert emitted from deterministic verdict categories.
#[derive(Debug, Clone, Copy, PartialEq, Eq, Structural)]
pub struct PretradeAlert {
    /// Alert severity.
    pub severity: AlertSeverity,
    /// Rejection reason, if the alert came from a deterministic reject.
    pub reject_reason: Option<RejectReason>,
    /// Indeterminate reason, if the alert came from fail-closed uncertainty.
    pub indeterminate_reason: Option<IndeterminateReason>,
}

impl PretradeAlert {
    /// Maps a verdict to an alert, returning `None` for pass decisions:
    /// rejects warn, indeterminate verdicts are critical.
    pub fn from_verdict(verdict: RiskVerdict) -> (a: Option<Self>)
        ensures
            a == match verdict {
                RiskVerdict::Pass => None,
                RiskVerdict::Reject(reason) => Some(
                    PretradeAlert {
                        severity: AlertSeverity::Warning,
                        reject_reason: Some(reason),
                        indeterminate_reason: None,
                    },
                ),
                RiskVerdict::Indeterminate(reason) => Some(
                    PretradeAlert {
                        severity: AlertSeverity::Critical,
                        reject_reason: None,
                        indeterminate_reason: Some(reason),
                    },
                ),
            },
    {
        match verdict {
            RiskVerdict::Pass => None,
            RiskVerdict::Reject(reason) => Some(
                PretradeAlert {
                    severity: AlertSeverity::Warning,
                    reject_reason: Some(reason),
                    indeterminate_reason: None,
                },
            ),
            RiskVerdict::Indeterminate(reason) => Some(
                PretradeAlert {
                    severity: AlertSeverity::Critical,
                    reject_reason: None,
                    indeterminate_reason: Some(reason),
                },
            ),
        }
    }
}

} // verus!
