use risk::latency::percentile_index;
use risk::portfolio::netting::aggregate_snapshot_ready;
use risk::portfolio::var::{DeterministicRng, SimulationSeed, VarError};
use risk::{DataQuality, IndeterminateReason, MarketSnapshot, Notional, Timestamp};

#[test]
fn netting_requires_fresh_aggregate() {
    let mut market = MarketSnapshot::new(10, 10, 10);
    assert_eq!(
        aggregate_snapshot_ready(&market, Timestamp(5)),
        Err(IndeterminateReason::StaleAggregateSnapshot)
    );
    market.set_aggregate_notional(Notional::new(1), Timestamp(5), DataQuality::clean());
    assert_eq!(aggregate_snapshot_ready(&market, Timestamp(15)), Ok(()));
    assert_eq!(
        aggregate_snapshot_ready(&market, Timestamp(16)),
        Err(IndeterminateReason::StaleAggregateSnapshot)
    );
}

#[test]
fn generator_is_seed_deterministic() {
    let mut first = DeterministicRng::new(SimulationSeed(42).raw());
    let mut second = DeterministicRng::new(42);
    for _ in 0..5 {
        assert_eq!(first.next_u64(), second.next_u64());
    }
    let mut rng = DeterministicRng::new(0);
    assert_eq!(rng.next_u64(), 1);
    assert_eq!(rng.next_u64(), 6_364_136_223_846_793_006);
}

#[test]
fn var_errors_describe_themselves() {
    assert_eq!(VarError::ShapeMismatch.message(), "weights and covariance dimensions do not match");
    assert_eq!(VarError::EmptyInput.message(), "input data is empty");
}

#[test]
fn percentile_positions() {
    assert_eq!(percentile_index(1, 500), 0);
    assert_eq!(percentile_index(10, 500), 4);
    assert_eq!(percentile_index(1000, 999), 998);
    assert_eq!(percentile_index(3, 999), 2);
    assert_eq!(percentile_index(usize::MAX, usize::MAX), usize::MAX / 1000 - 1);
}
