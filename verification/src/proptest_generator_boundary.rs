//! The boundary constants of a crowdfunding campaign, the validators that
//! accept exactly the values inside them, the clamping helpers, and the
//! amounts derived from them (funding progress and platform fee).

use vstd::prelude::*;
use crate::muldiv::scaled_quotient;
use crate::laws::law_progress_bps_is_floor_of_ratio;

verus! {

// ── Constants ────────────────────────────────────────────────────────────────

/// Smallest accepted deadline offset, in seconds.
pub const DEADLINE_OFFSET_MIN: u64 = 1_000;

/// Largest accepted deadline offset, in seconds.
pub const DEADLINE_OFFSET_MAX: u64 = 1_000_000;

/// Smallest accepted campaign goal.
pub const GOAL_MIN: i128 = 1_000;

/// Largest accepted campaign goal.
pub const GOAL_MAX: i128 = 100_000_000;

/// Smallest value a campaign's minimum contribution may take.
pub const MIN_CONTRIBUTION_FLOOR: i128 = 1;

/// Progress in basis points of a fully funded campaign.
pub const PROGRESS_BPS_CAP: u32 = 10_000;

/// Highest fee rate, in basis points (the whole amount).
pub const FEE_BPS_CAP: u32 = 10_000;

/// Fewest cases a property run is given.
pub const PROPTEST_CASES_MIN: u32 = 32;

/// Most cases a property run is given.
pub const PROPTEST_CASES_MAX: u32 = 256;

/// Largest number of values a generator produces in one batch.
pub const GENERATOR_BATCH_MAX: u32 = 512;

/// Basis points in a whole.
pub const BPS_DENOMINATOR: u32 = 10_000;

// ── Specifications ───────────────────────────────────────────────────────────

pub open spec fn deadline_offset_ok(offset: int) -> bool {
    DEADLINE_OFFSET_MIN <= offset <= DEADLINE_OFFSET_MAX
}

pub open spec fn goal_ok(goal: int) -> bool {
    GOAL_MIN <= goal <= GOAL_MAX
}

pub open spec fn min_contribution_ok(min_contribution: int, goal: int) -> bool {
    MIN_CONTRIBUTION_FLOOR <= min_contribution <= goal
}

pub open spec fn contribution_ok(amount: int, min_contribution: int) -> bool {
    amount >= min_contribution
}

pub open spec fn fee_bps_ok(fee_bps: int) -> bool {
    0 <= fee_bps <= FEE_BPS_CAP
}

pub open spec fn batch_size_ok(size: int) -> bool {
    1 <= size <= GENERATOR_BATCH_MAX
}

/// `raw` clamped into `[0, PROGRESS_BPS_CAP]`.
pub open spec fn clamp_bps(raw: int) -> int {
    if raw <= 0 {
        0
    } else if raw >= PROGRESS_BPS_CAP {
        PROGRESS_BPS_CAP as int
    } else {
        raw
    }
}

/// `requested` clamped into `[PROPTEST_CASES_MIN, PROPTEST_CASES_MAX]`.
pub open spec fn clamp_cases(requested: int) -> int {
    if requested <= PROPTEST_CASES_MIN {
        PROPTEST_CASES_MIN as int
    } else if requested >= PROPTEST_CASES_MAX {
        PROPTEST_CASES_MAX as int
    } else {
        requested
    }
}

/// Funding progress in basis points: `floor(raised * 10_000 / goal)` clamped
/// into `[0, PROGRESS_BPS_CAP]`, and 0 for a goal that is not positive.
pub open spec fn progress_bps(raised: int, goal: int) -> int {
    if goal <= 0 {
        0
    } else {
        clamp_bps(raised * BPS_DENOMINATOR / goal)
    }
}

/// The fee rate that is charged: `fee_bps`, at most `FEE_BPS_CAP`.
pub open spec fn charged_rate(fee_bps: int) -> int {
    if fee_bps > FEE_BPS_CAP {
        FEE_BPS_CAP as int
    } else {
        fee_bps
    }
}

/// Fee on a contribution: `floor(amount * rate / 10_000)` for a positive
/// amount, and 0 for an amount that is not positive.
pub open spec fn fee_amount(amount: int, fee_bps: int) -> int {
    if amount <= 0 {
        0
    } else {
        amount * charged_rate(fee_bps) / (BPS_DENOMINATOR as int)
    }
}

// ── Validators ───────────────────────────────────────────────────────────────

/// Accepts exactly the offsets in `[DEADLINE_OFFSET_MIN, DEADLINE_OFFSET_MAX]`.
pub fn is_valid_deadline_offset(offset: u64) -> (ok: bool)
    ensures
        ok == deadline_offset_ok(offset as int),
        ok <==> (1_000 <= offset && offset <= 1_000_000),
{
    offset >= DEADLINE_OFFSET_MIN && offset <= DEADLINE_OFFSET_MAX
}

/// Accepts exactly the goals in `[GOAL_MIN, GOAL_MAX]`.
pub fn is_valid_goal(goal: i128) -> (ok: bool)
    ensures
        ok == goal_ok(goal as int),
        ok <==> (1_000 <= goal && goal <= 100_000_000),
{
    goal >= GOAL_MIN && goal <= GOAL_MAX
}

/// Accepts exactly the minimum contributions in `[MIN_CONTRIBUTION_FLOOR, goal]`.
pub fn is_valid_min_contribution(min_contribution: i128, goal: i128) -> (ok: bool)
    ensures
        ok == min_contribution_ok(min_contribution as int, goal as int),
        ok <==> (1 <= min_contribution && min_contribution <= goal),
{
    min_contribution >= MIN_CONTRIBUTION_FLOOR && min_contribution <= goal
}

/// Accepts exactly the contributions of at least `min_contribution`.
pub fn is_valid_contribution_amount(amount: i128, min_contribution: i128) -> (ok: bool)
    ensures
        ok == contribution_ok(amount as int, min_contribution as int),
        ok <==> amount >= min_contribution,
{
    amount >= min_contribution
}

/// Accepts exactly the fee rates of at most `FEE_BPS_CAP`.
pub fn is_valid_fee_bps(fee_bps: u32) -> (ok: bool)
    ensures
        ok == fee_bps_ok(fee_bps as int),
        ok <==> fee_bps <= 10_000,
{
    fee_bps <= FEE_BPS_CAP
}

/// Accepts exactly the batch sizes in `[1, GENERATOR_BATCH_MAX]`.
pub fn is_valid_generator_batch_size(size: u32) -> (ok: bool)
    ensures
        ok == batch_size_ok(size as int),
        ok <==> (1 <= size && size <= 512),
{
    size >= 1 && size <= GENERATOR_BATCH_MAX
}

// ── Clamping helpers ─────────────────────────────────────────────────────────

/// Clamps a raw progress value into `[0, PROGRESS_BPS_CAP]`; total on `i128`.
pub fn clamp_progress_bps(raw: i128) -> (bps: u32)
    ensures
        bps == clamp_bps(raw as int),
        raw <= 0 ==> bps == 0,
        raw >= 10_000 ==> bps == 10_000,
        0 <= raw <= 10_000 ==> bps == raw,
{
    if raw <= 0 {
        0
    } else if raw >= PROGRESS_BPS_CAP as i128 {
        PROGRESS_BPS_CAP
    } else {
        raw as u32
    }
}

/// Clamps a requested case count into `[PROPTEST_CASES_MIN, PROPTEST_CASES_MAX]`.
pub fn clamp_proptest_cases(requested: u32) -> (cases: u32)
    ensures
        cases == clamp_cases(requested as int),
        requested <= 32 ==> cases == 32,
        requested >= 256 ==> cases == 256,
        32 <= requested <= 256 ==> cases == requested,
{
    if requested <= PROPTEST_CASES_MIN {
        PROPTEST_CASES_MIN
    } else if requested >= PROPTEST_CASES_MAX {
        PROPTEST_CASES_MAX
    } else {
        requested
    }
}

// ── Derived amounts ──────────────────────────────────────────────────────────

/// Funding progress in basis points, exact for every `raised` and `goal`:
/// the product `raised * 10_000` is never formed, so nothing overflows.
pub fn compute_progress_bps(raised: i128, goal: i128) -> (bps: u32)
    ensures
        bps == progress_bps(raised as int, goal as int),
        goal <= 0 || raised <= 0 ==> bps == 0,
        0 < goal <= raised ==> bps == 10_000,
        0 <= raised < goal ==> bps < 10_000 && bps * goal <= raised * 10_000 < (bps + 1) * goal,
{
    if goal <= 0 {
        return 0;
    }
    if raised <= 0 {
        proof {
            assert(raised * BPS_DENOMINATOR <= 0) by (nonlinear_arith)
                requires
                    raised <= 0,
            ;
            assert((raised * BPS_DENOMINATOR) / (goal as int) <= 0) by (nonlinear_arith)
                requires
                    raised * BPS_DENOMINATOR <= 0,
                    goal > 0,
            ;
        }
        return 0;
    }
    if raised >= goal {
        proof {
            assert(raised * BPS_DENOMINATOR / (goal as int) >= BPS_DENOMINATOR) by (nonlinear_arith)
                requires
                    raised >= goal,
                    goal > 0,
            {
                assert(raised * BPS_DENOMINATOR >= goal * BPS_DENOMINATOR);
                assert((goal * BPS_DENOMINATOR) / (goal as int) == BPS_DENOMINATOR);
            }
        }
        return PROGRESS_BPS_CAP;
    }
    let q = scaled_quotient(raised as u128, BPS_DENOMINATOR as u64, goal as u128);
    proof {
        assert(q < BPS_DENOMINATOR) by (nonlinear_arith)
            requires
                q == (raised as int) * (BPS_DENOMINATOR as int) / (goal as int),
                0 < raised < goal,
        {
            assert((raised as int) * (BPS_DENOMINATOR as int) < (goal as int) * (BPS_DENOMINATOR as int));
        }
        law_progress_bps_is_floor_of_ratio(raised as int, goal as int);
    }
    q as u32
}

/// Fee on a contribution, exact for every positive `amount`; a rate above
/// `FEE_BPS_CAP` is charged at the cap, so the fee never exceeds the amount.
pub fn compute_fee_amount(amount: i128, fee_bps: u32) -> (fee: i128)
    ensures
        fee == fee_amount(amount as int, fee_bps as int),
        amount <= 0 ==> fee == 0,
        amount > 0 && fee_bps <= 10_000 ==> fee * 10_000 <= amount * fee_bps < (fee + 1) * 10_000,
        amount > 0 && fee_bps > 10_000 ==> fee == amount,
{
    if amount <= 0 {
        return 0;
    }
    let rate: u128 = if fee_bps > FEE_BPS_CAP {
        FEE_BPS_CAP as u128
    } else {
        fee_bps as u128
    };
    let a = amount as u128;
    let whole = a / 10_000;
    let part = a % 10_000;
    proof {
        assert(whole * rate <= a) by (nonlinear_arith)
            requires
                whole == a / 10_000,
                rate <= 10_000,
        {
            assert(whole * rate <= whole * 10_000);
        }
        assert(part * rate < 100_000_000) by (nonlinear_arith)
            requires
                part < 10_000,
                rate <= 10_000,
        ;
        assert((a as int) * (rate as int) / 10_000 == whole * rate + (part * rate) / 10_000)
            by (nonlinear_arith)
            requires
                a == whole * 10_000 + part,
                0 <= part < 10_000,
        {
            assert((a as int) * (rate as int) == (whole * rate) * 10_000 + part * rate);
        }
    }
    let fee = whole * rate + part * rate / 10_000;
    proof {
        assert(fee <= a) by (nonlinear_arith)
            requires
                fee == whole * rate + (part * rate) / 10_000,
                whole == a / 10_000,
                part == a % 10_000,
                rate <= 10_000,
        {
            assert((part * rate) / 10_000 <= part);
        }
    }
    fee as i128
}

// ── Tag ──────────────────────────────────────────────────────────────────────

/// The tag under which boundary events are logged.
pub fn boundary_log_tag() -> (tag: &'static str)
    ensures
        tag@ == "proptest_boundary"@,
        tag@.len() > 0,
{
    proof {
        reveal_strlit("proptest_boundary");
    }
    "proptest_boundary"
}

} // verus!
