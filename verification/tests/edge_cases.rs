//! Edge cases and regressions of the boundary helpers.

use crowdfund::proptest_generator_boundary::{
    boundary_log_tag, clamp_progress_bps, clamp_proptest_cases, compute_fee_amount,
    compute_progress_bps, is_valid_contribution_amount, is_valid_deadline_offset,
    is_valid_fee_bps, is_valid_generator_batch_size, is_valid_goal, is_valid_min_contribution,
    DEADLINE_OFFSET_MAX, DEADLINE_OFFSET_MIN, FEE_BPS_CAP, GENERATOR_BATCH_MAX, GOAL_MAX,
    GOAL_MIN, MIN_CONTRIBUTION_FLOOR, PROGRESS_BPS_CAP, PROPTEST_CASES_MAX, PROPTEST_CASES_MIN,
};

// ── Regressions ───────────────────────────────────────────────────────────

/// An offset of 100 lies below the minimum and is rejected.
#[test]
fn regression_deadline_100_rejected() {
    assert!(!is_valid_deadline_offset(100));
}

/// An offset of 1000 is the minimum and is accepted.
#[test]
fn regression_deadline_1000_accepted() {
    assert!(is_valid_deadline_offset(1_000));
}

/// Seed: goal=1_000_000, deadline=100; the deadline is invalid.
#[test]
fn regression_seed_goal_1m_deadline_100() {
    assert!(is_valid_goal(1_000_000));
    assert!(!is_valid_deadline_offset(100));
}

/// Regression seed: goal=2_000_000, deadline=100, contribution=100_000.
#[test]
fn regression_seed_goal_2m_deadline_100_contribution_100k() {
    assert!(is_valid_goal(2_000_000));
    assert!(!is_valid_deadline_offset(100));
    assert!(is_valid_contribution_amount(100_000, 1_000));
}

// ── Exact boundary values ─────────────────────────────────────────────────

#[test]
fn deadline_offset_exact_boundaries() {
    assert!(!is_valid_deadline_offset(DEADLINE_OFFSET_MIN - 1));
    assert!(is_valid_deadline_offset(DEADLINE_OFFSET_MIN));
    assert!(is_valid_deadline_offset(DEADLINE_OFFSET_MAX));
    assert!(!is_valid_deadline_offset(DEADLINE_OFFSET_MAX + 1));
}

#[test]
fn goal_exact_boundaries() {
    assert!(!is_valid_goal(GOAL_MIN - 1));
    assert!(is_valid_goal(GOAL_MIN));
    assert!(is_valid_goal(GOAL_MAX));
    assert!(!is_valid_goal(GOAL_MAX + 1));
}

#[test]
fn min_contribution_exact_boundaries() {
    let goal = 10_000i128;
    assert!(!is_valid_min_contribution(0, goal));
    assert!(is_valid_min_contribution(1, goal));
    assert!(is_valid_min_contribution(goal, goal));
    assert!(!is_valid_min_contribution(goal + 1, goal));
}

#[test]
fn fee_bps_exact_boundaries() {
    assert!(is_valid_fee_bps(0));
    assert!(is_valid_fee_bps(FEE_BPS_CAP));
    assert!(!is_valid_fee_bps(FEE_BPS_CAP + 1));
}

#[test]
fn batch_size_exact_boundaries() {
    assert!(!is_valid_generator_batch_size(0));
    assert!(is_valid_generator_batch_size(1));
    assert!(is_valid_generator_batch_size(GENERATOR_BATCH_MAX));
    assert!(!is_valid_generator_batch_size(GENERATOR_BATCH_MAX + 1));
}

// ── Clamp extreme values ──────────────────────────────────────────────────

#[test]
fn clamp_progress_bps_extreme_inputs() {
    assert_eq!(clamp_progress_bps(i128::MIN), 0);
    assert_eq!(clamp_progress_bps(i128::MAX), PROGRESS_BPS_CAP);
}

#[test]
fn clamp_proptest_cases_extreme_inputs() {
    assert_eq!(clamp_proptest_cases(0), PROPTEST_CASES_MIN);
    assert_eq!(clamp_proptest_cases(u32::MAX), PROPTEST_CASES_MAX);
}

// ── compute_progress_bps edge values ──────────────────────────────────────

#[test]
fn compute_progress_bps_zero_goal_safe() {
    assert_eq!(compute_progress_bps(1_000_000, 0), 0);
    assert_eq!(compute_progress_bps(0, 0), 0);
}

#[test]
fn compute_progress_bps_negative_goal_safe() {
    assert_eq!(compute_progress_bps(1_000, -1), 0);
}

#[test]
fn compute_progress_bps_quarter_funded() {
    assert_eq!(compute_progress_bps(250, 1_000), 2_500);
}

#[test]
fn compute_progress_bps_three_quarters_funded() {
    assert_eq!(compute_progress_bps(750, 1_000), 7_500);
}

#[test]
fn compute_progress_bps_half_funded() {
    assert_eq!(compute_progress_bps(500, 1_000), 5_000);
}

#[test]
fn compute_progress_bps_fully_funded() {
    assert_eq!(compute_progress_bps(1_000, 1_000), 10_000);
}

#[test]
fn compute_progress_bps_over_funded_clamped() {
    assert_eq!(compute_progress_bps(2_000, 1_000), PROGRESS_BPS_CAP);
}

// ── compute_fee_amount edge values ────────────────────────────────────────

#[test]
fn compute_fee_amount_negative_amount_returns_zero() {
    assert_eq!(compute_fee_amount(-1, 500), 0);
}

#[test]
fn compute_fee_amount_1_percent() {
    // 1 % = 100 bps; 1_000_000 * 100 / 10_000 = 10_000
    assert_eq!(compute_fee_amount(1_000_000, 100), 10_000);
}

#[test]
fn compute_fee_amount_5_percent() {
    // 5 % = 500 bps; 1_000_000 * 500 / 10_000 = 50_000
    assert_eq!(compute_fee_amount(1_000_000, 500), 50_000);
}

#[test]
fn compute_fee_amount_100_percent() {
    assert_eq!(compute_fee_amount(1_000_000, 10_000), 1_000_000);
}

#[test]
fn compute_fee_amount_floors_fractional() {
    // 1 stroop * 1 bps / 10_000 = 0 (integer floor)
    assert_eq!(compute_fee_amount(1, 1), 0);
}

// ── boundary_log_tag ──────────────────────────────────────────────────────

#[test]
fn boundary_log_tag_value() {
    assert_eq!(boundary_log_tag(), "proptest_boundary");
}

#[test]
fn boundary_log_tag_is_non_empty() {
    assert!(!boundary_log_tag().is_empty());
}

// ── Constant stability ────────────────────────────────────────────────────

#[test]
fn all_constants_stable() {
    assert_eq!(DEADLINE_OFFSET_MIN, 1_000);
    assert_eq!(DEADLINE_OFFSET_MAX, 1_000_000);
    assert_eq!(GOAL_MIN, 1_000);
    assert_eq!(GOAL_MAX, 100_000_000);
    assert_eq!(MIN_CONTRIBUTION_FLOOR, 1);
    assert_eq!(PROGRESS_BPS_CAP, 10_000);
    assert_eq!(FEE_BPS_CAP, 10_000);
    assert_eq!(PROPTEST_CASES_MIN, 32);
    assert_eq!(PROPTEST_CASES_MAX, 256);
    assert_eq!(GENERATOR_BATCH_MAX, 512);
}
