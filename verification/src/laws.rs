//! Properties that hold of the boundary helpers on every input.

use vstd::prelude::*;
use vstd::arithmetic::div_mod::lemma_fundamental_div_mod;
use crate::proptest_generator_boundary::{
    batch_size_ok, charged_rate, clamp_bps, clamp_cases, contribution_ok, deadline_offset_ok,
    fee_bps_ok, goal_ok, fee_amount, min_contribution_ok,
    progress_bps, BPS_DENOMINATOR, MIN_CONTRIBUTION_FLOOR, PROGRESS_BPS_CAP, PROPTEST_CASES_MAX,
    PROPTEST_CASES_MIN,
};

verus! {

/// Clamped progress always lies in `[0, PROGRESS_BPS_CAP]`, and every
/// negative (or zero) raw value clamps to 0.
pub proof fn law_clamp_progress_bps_bounded(raw: int)
    ensures
        0 <= clamp_bps(raw) <= PROGRESS_BPS_CAP,
        raw <= 0 ==> clamp_bps(raw) == 0,
        raw >= PROGRESS_BPS_CAP ==> clamp_bps(raw) == PROGRESS_BPS_CAP,
{
}

/// Progress clamping leaves values already in range unchanged, so clamping
/// twice gives what clamping once gives.
pub proof fn law_clamp_progress_bps_idempotent(raw: int)
    ensures
        0 <= raw <= PROGRESS_BPS_CAP ==> clamp_bps(raw) == raw,
        clamp_bps(clamp_bps(raw)) == clamp_bps(raw),
{
}

/// A clamped case count always lies in `[PROPTEST_CASES_MIN, PROPTEST_CASES_MAX]`,
/// is the identity on that range, and clamping twice equals clamping once.
pub proof fn law_clamp_proptest_cases_bounded(requested: int)
    ensures
        PROPTEST_CASES_MIN <= clamp_cases(requested) <= PROPTEST_CASES_MAX,
        PROPTEST_CASES_MIN <= requested <= PROPTEST_CASES_MAX ==> clamp_cases(requested)
            == requested,
        clamp_cases(clamp_cases(requested)) == clamp_cases(requested),
{
}

/// Progress always lies in `[0, PROGRESS_BPS_CAP]`.
pub proof fn law_progress_bps_in_range(raised: int, goal: int)
    ensures
        0 <= progress_bps(raised, goal) <= PROGRESS_BPS_CAP,
{
}

/// A campaign that has raised at least its (positive) goal is at
/// `PROGRESS_BPS_CAP`.
pub proof fn law_progress_bps_fully_funded(raised: int, goal: int)
    requires
        0 < goal <= raised,
    ensures
        progress_bps(raised, goal) == PROGRESS_BPS_CAP,
{
    assert(raised * BPS_DENOMINATOR / goal >= BPS_DENOMINATOR) by (nonlinear_arith)
        requires
            0 < goal <= raised,
    {
        assert(raised * BPS_DENOMINATOR >= goal * BPS_DENOMINATOR);
        assert((goal * BPS_DENOMINATOR) / goal == BPS_DENOMINATOR);
    }
}

/// A campaign that has raised nothing (or less than nothing) is at 0, and
/// so is every campaign whose goal is not positive.
pub proof fn law_progress_bps_nothing_raised(raised: int, goal: int)
    requires
        raised <= 0 || goal <= 0,
    ensures
        progress_bps(raised, goal) == 0,
{
    if goal > 0 {
        assert(raised * BPS_DENOMINATOR / goal <= 0) by (nonlinear_arith)
            requires
                raised <= 0,
                goal > 0,
        {
            assert(raised * BPS_DENOMINATOR <= 0);
        }
    }
}

/// A fee is never negative.
pub proof fn law_fee_amount_non_negative(amount: int, fee_bps: int)
    requires
        fee_bps >= 0,
    ensures
        fee_amount(amount, fee_bps) >= 0,
{
    if amount > 0 {
        assert(amount * charged_rate(fee_bps) / (BPS_DENOMINATOR as int) >= 0) by (nonlinear_arith)
            requires
                amount > 0,
                charged_rate(fee_bps) >= 0,
        ;
    }
}

/// A fee never exceeds the (non-negative) amount it is charged on.
pub proof fn law_fee_amount_at_most_amount(amount: int, fee_bps: int)
    requires
        amount >= 0,
        fee_bps >= 0,
    ensures
        fee_amount(amount, fee_bps) <= amount,
{
    if amount > 0 {
        assert(amount * charged_rate(fee_bps) / (BPS_DENOMINATOR as int) <= amount)
            by (nonlinear_arith)
            requires
                amount > 0,
                0 <= charged_rate(fee_bps) <= BPS_DENOMINATOR,
        {
            assert(amount * charged_rate(fee_bps) <= amount * BPS_DENOMINATOR);
            assert((amount * BPS_DENOMINATOR) / (BPS_DENOMINATOR as int) == amount);
        }
    }
}

/// A zero fee rate gives a zero fee.
pub proof fn law_fee_amount_zero_rate(amount: int)
    ensures
        fee_amount(amount, 0) == 0,
{
    assert(amount * 0 == 0) by (nonlinear_arith);
}

/// A contribution accepted against an accepted minimum contribution is at
/// least `MIN_CONTRIBUTION_FLOOR`, hence positive.
pub proof fn law_accepted_contribution_is_positive(amount: int, min_contribution: int, goal: int)
    requires
        min_contribution_ok(min_contribution, goal),
        contribution_ok(amount, min_contribution),
    ensures
        amount >= MIN_CONTRIBUTION_FLOOR,
        amount > 0,
{
}

/// The accepted deadline offsets are exactly those from 1 000 to 1 000 000.
pub proof fn law_deadline_offset_window(offset: int)
    ensures
        deadline_offset_ok(offset) <==> (1_000 <= offset && offset <= 1_000_000),
{
}

/// The accepted goals are exactly those from 1 000 to 100 000 000.
pub proof fn law_goal_window(goal: int)
    ensures
        goal_ok(goal) <==> (1_000 <= goal && goal <= 100_000_000),
{
}

/// The accepted minimum contributions for a goal are exactly those from 1 up
/// to the goal itself, whatever the goal.
pub proof fn law_min_contribution_window(min_contribution: int, goal: int)
    ensures
        min_contribution_ok(min_contribution, goal) <==> (1 <= min_contribution
            && min_contribution <= goal),
{
}

/// A contribution is accepted exactly when it reaches the minimum
/// contribution; no upper limit applies.
pub proof fn law_contribution_threshold(amount: int, min_contribution: int)
    ensures
        contribution_ok(amount, min_contribution) <==> amount >= min_contribution,
        amount >= min_contribution ==> contribution_ok(amount + 1, min_contribution),
{
}

/// The accepted fee rates are exactly those from 0 to 10 000 basis points.
pub proof fn law_fee_bps_window(fee_bps: int)
    ensures
        fee_bps >= 0 ==> (fee_bps_ok(fee_bps) <==> fee_bps <= 10_000),
{
}

/// The accepted batch sizes are exactly those from 1 to 512.
pub proof fn law_batch_size_window(size: int)
    ensures
        batch_size_ok(size) <==> (1 <= size && size <= 512),
{
}

/// Progress clamping sends everything below 0 to 0, everything above
/// 10 000 to 10 000, and leaves the rest unchanged.
pub proof fn law_clamp_progress_bps_exact(raw: int)
    ensures
        raw <= 0 ==> clamp_bps(raw) == 0,
        raw >= 10_000 ==> clamp_bps(raw) == 10_000,
        0 <= raw <= 10_000 ==> clamp_bps(raw) == raw,
{
}

/// Case clamping raises every request below 32 to exactly 32, lowers every
/// request above 256 to exactly 256, and leaves the rest unchanged.
pub proof fn law_clamp_proptest_cases_exact(requested: int)
    ensures
        requested <= 32 ==> clamp_cases(requested) == 32,
        requested >= 256 ==> clamp_cases(requested) == 256,
        32 <= requested <= 256 ==> clamp_cases(requested) == requested,
{
}

/// Below full funding, progress is the largest `p` with
/// `p * goal <= raised * 10 000`: the floor of `raised * 10 000 / goal`.
pub proof fn law_progress_bps_is_floor_of_ratio(raised: int, goal: int)
    requires
        0 < goal,
        0 <= raised < goal,
    ensures
        0 <= progress_bps(raised, goal) < 10_000,
        progress_bps(raised, goal) * goal <= raised * 10_000,
        raised * 10_000 < (progress_bps(raised, goal) + 1) * goal,
{
    let x = raised * 10_000;
    let q = x / goal;
    lemma_fundamental_div_mod(x, goal);
    assert(0 <= x % goal < goal);
    assert(0 <= q < 10_000) by (nonlinear_arith)
        requires
            x == goal * q + x % goal,
            0 <= x % goal < goal,
            x == raised * 10_000,
            0 <= raised < goal,
    {
        assert(x < goal * 10_000);
    }
    assert(raised * BPS_DENOMINATOR / goal == q);
    assert(q * goal <= x < (q + 1) * goal) by (nonlinear_arith)
        requires
            x == goal * q + x % goal,
            0 <= x % goal < goal,
    ;
}

/// A positive contribution's fee is the largest `f` with
/// `f * 10 000 <= amount * rate`, where the rate is `fee_bps` up to 10 000
/// and 10 000 above; a contribution that is not positive pays no fee.
pub proof fn law_fee_amount_is_floor_of_rate(amount: int, fee_bps: int)
    requires
        fee_bps >= 0,
    ensures
        amount <= 0 ==> fee_amount(amount, fee_bps) == 0,
        amount > 0 && fee_bps <= 10_000 ==> fee_amount(amount, fee_bps) * 10_000 <= amount
            * fee_bps < (fee_amount(amount, fee_bps) + 1) * 10_000,
        amount > 0 && fee_bps > 10_000 ==> fee_amount(amount, fee_bps) == amount,
{
    if amount > 0 {
        let rate = charged_rate(fee_bps);
        let x = amount * rate;
        let f = x / 10_000;
        lemma_fundamental_div_mod(x, 10_000);
        assert(f * 10_000 <= x < (f + 1) * 10_000) by (nonlinear_arith)
            requires
                x == 10_000 * f + x % 10_000,
                0 <= x % 10_000 < 10_000,
        ;
        if fee_bps > 10_000 {
            assert(x == amount * 10_000);
            assert(f == amount) by (nonlinear_arith)
                requires
                    f * 10_000 <= amount * 10_000 < (f + 1) * 10_000,
            ;
        }
    }
}

} // verus!
