use risk::{
    AlertSeverity, GateMetrics, IndeterminateReason, PretradeAlert, RejectReason, RiskVerdict,
};

#[test]
fn metrics_count_verdict_categories() {
    let mut metrics = GateMetrics::default();

    metrics.record_verdict(RiskVerdict::Pass);
    metrics.record_verdict(RiskVerdict::Indeterminate(
        IndeterminateReason::MissingPrice,
    ));

    let snapshot = metrics.snapshot();
    assert_eq!(snapshot.evaluations, 2);
    assert_eq!(snapshot.passes, 1);
    assert_eq!(snapshot.indeterminates, 1);
}

#[test]
fn indeterminate_verdict_maps_to_critical_alert() {
    let alert = PretradeAlert::from_verdict(RiskVerdict::Indeterminate(
        IndeterminateReason::StalePrice,
    ))
    .unwrap();

    assert_eq!(alert.severity, AlertSeverity::Critical);
    assert_eq!(
        alert.indeterminate_reason,
        Some(IndeterminateReason::StalePrice)
    );
}

#[test]
fn rejects_warn_and_passes_raise_nothing() {
    assert_eq!(PretradeAlert::from_verdict(RiskVerdict::Pass), None);
    let alert = PretradeAlert::from_verdict(RiskVerdict::Reject(RejectReason::Margin)).unwrap();
    assert_eq!(alert.severity, AlertSeverity::Warning);
    assert_eq!(alert.reject_reason, Some(RejectReason::Margin));
    assert_eq!(alert.indeterminate_reason, None);
    assert!(RiskVerdict::Pass.is_pass());
    assert!(!RiskVerdict::Reject(RejectReason::Margin).is_pass());
}

#[test]
fn every_evaluation_is_counted_once() {
    let mut metrics = GateMetrics::default();
    metrics.record_verdict(RiskVerdict::Reject(RejectReason::TradingDisabled));
    metrics.record_verdict(RiskVerdict::Reject(RejectReason::FatFinger));
    metrics.record_limit_update();
    metrics.record_trading_state_change();
    let s = metrics.snapshot();
    assert_eq!(s.evaluations, s.passes + s.rejects + s.indeterminates);
    assert_eq!(s.rejects, 2);
    assert_eq!(s.trading_disabled_rejections, 1);
    assert_eq!(s.limit_updates, 1);
    assert_eq!(s.trading_state_changes, 1);
}

#[test]
fn audit_log_returns_every_pushed_record_in_order() {
    let first = risk::GateAuditRecord::TradingStateChange(risk::TradingStateAuditRecord {
        actor: "ops".to_string(),
        changed_at: risk::Timestamp(1),
        previous_enabled: true,
        current_enabled: false,
    });
    let second = risk::GateAuditRecord::TradingStateChange(risk::TradingStateAuditRecord {
        actor: "ops".to_string(),
        changed_at: risk::Timestamp(2),
        previous_enabled: false,
        current_enabled: true,
    });
    let mut log = risk::InMemoryAuditLog::new();
    log.push(first.clone());
    log.push(second.clone());
    log.push(first.clone());
    assert_eq!(log.records().len(), 3);
    assert_eq!(log.into_records(), vec![first.clone(), second, first]);
}

#[test]
fn limit_table_summary_counts_distinct_instruments() {
    let mut limits = risk::LimitTable::new();
    limits.set_per_order_notional(risk::InstrumentId(1), risk::Notional::new(10));
    limits.set_per_order_notional(risk::InstrumentId(2), risk::Notional::new(20));
    limits.set_per_order_notional(risk::InstrumentId(1), risk::Notional::new(30));
    limits.set_fat_finger_band_bps(risk::InstrumentId(2), 50);
    let summary = limits.summary();
    assert_eq!(summary.per_order_notional_limits, 2);
    assert_eq!(summary.fat_finger_bands, 1);
    assert_eq!(summary.max_abs_position_limits, 0);
    assert_eq!(limits.per_order_notional(risk::InstrumentId(1)), Some(risk::Notional::new(30)));
}
