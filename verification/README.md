# risk

Multi-asset risk checks over fixed-point values, verified with Verus.

`src/` is the verified library:

- `types`, `currency`, `verdict`, `schema`, `position`: fixed-point
  identifiers and values with exact overflow-checked arithmetic, verdicts,
  record schema versions.
- `instrument`, `market`, `symbol`: instrument taxonomy and linear risk
  weights, market snapshots with trusted-price / FX / aggregate checks,
  instrument catalog and symbol registry.
- `pretrade`: the limit table, the five checks (per-order notional,
  aggregate notional, position, margin, fat-finger), `PretradeGate`, which
  runs them in order and fails closed, the text limit-table parser, audit
  records and counters.
- `portfolio`: netting readiness, the seeded generator used by Monte Carlo
  value-at-risk and the value-at-risk error type.
- `text`, `latency`: character-level helpers (trimming, splitting, decimal
  parsing and printing) and the percentile position of the latency report.

`app/` holds what stays outside the proofs: the latency-report program,
floating-point portfolio analytics (over `nalgebra`), the Python bindings
(`pyo3`), the file-backed limit source, positions (which carry an `f64`
delta), and conversions from Orderflow (`of_core`) types.
