# crowdfund

Verified boundary rules for crowdfunding campaigns.

- `src/proptest_generator_boundary.rs`: the boundary constants, the validators
  (each accepts exactly its stated range), the clamping helpers, and the
  derived amounts `compute_progress_bps` and `compute_fee_amount`, whose
  contracts give the exact value for every input.
- `src/muldiv.rs`: `scaled_quotient`, an exact `floor(r * m / g)` for `r < g`
  that never forms the full product, used to compute progress without
  overflow.
- `src/laws.rs`: properties that hold on every input (bounds, idempotence of
  the clamps, fully funded and unfunded progress, fee bounds).
- `tests/`: edge cases, property tests driven by proptest, and exact values at
  the extremes of the integer types.
