//! The accrual engine: integer arithmetic shared by every ledger operation.
//!
//! The pool keeps one running total, the reward earned per staked unit since
//! the pool was created, scaled by [`ACC_PRECISION`]. A depositor keeps the
//! value of that total, multiplied by the stake, as of the last time the
//! depositor was settled. The difference between the two is what the depositor
//! is owed, so settling one depositor never touches another.
//!
//! All arithmetic clamps at the bounds of its type; nothing wraps.

use vstd::prelude::*;

verus! {

/// Fixed-point scale of the reward-per-share accumulator.
pub const ACC_PRECISION: u128 = 1_000_000_000_000;

/// One hundred percent, in basis points.
pub const BPS_DENOMINATOR: u64 = 10_000;

/// The pool owner's share of every distribution, in basis points.
pub const OPERATOR_BPS: u64 = 3_000;

/// `x` clamped to the range of `u64`.
pub open spec fn clamp_u64(x: int) -> u64 {
    if x < 0 {
        0
    } else if x > u64::MAX {
        u64::MAX
    } else {
        x as u64
    }
}

/// `x` clamped to the range of `u128`.
pub open spec fn clamp_u128(x: int) -> u128 {
    if x < 0 {
        0
    } else if x > u128::MAX {
        u128::MAX
    } else {
        x as u128
    }
}

/// The reward debt of `amount` staked units priced at `acc_reward_per_share`:
/// their product, clamped to sixteen bytes.
pub open spec fn checkpoint_value(amount: u64, acc_reward_per_share: u128) -> u128 {
    clamp_u128(amount * acc_reward_per_share)
}

/// What has accrued to a stake since its last settlement, before it is
/// scaled down: the stake priced at the current accumulator, less the debt on
/// record, and never below zero.
pub open spec fn accrued_since(amount: u64, acc_reward_per_share: u128, reward_debt: u128) -> u128 {
    clamp_u128(checkpoint_value(amount, acc_reward_per_share) - reward_debt)
}

/// What a depositor is owed: what has accrued since the last settlement,
/// scaled down with the remainder dropped, and clamped to the width of a
/// balance.
pub open spec fn pending_value(amount: u64, acc_reward_per_share: u128, reward_debt: u128) -> u64 {
    clamp_u64(
        (accrued_since(amount, acc_reward_per_share, reward_debt) as int) / (ACC_PRECISION as int),
    )
}

/// The operator's part of `new_revenue` at `operator_bps` basis points,
/// rounded down.
pub open spec fn operator_cut(new_revenue: u64, operator_bps: u64) -> int {
    new_revenue * operator_bps / (BPS_DENOMINATOR as int)
}

/// The part of `new_revenue` left for the depositors once the operator's part
/// is taken: the rounding remainder goes here.
pub open spec fn reward_cut(new_revenue: u64, operator_bps: u64) -> int {
    new_revenue - operator_cut(new_revenue, operator_bps)
}

/// By how much a reward of `reward` units raises the accumulator of a pool
/// that holds `total_staked` units. Meaningful for `total_staked > 0`.
pub open spec fn reward_per_share(reward: u64, total_staked: u64) -> int {
    reward * ACC_PRECISION / (total_staked as int)
}

/// The accumulator after a reward of `reward` units is spread over
/// `total_staked` units, clamped to sixteen bytes.
pub open spec fn accrued(acc_reward_per_share: u128, reward: u64, total_staked: u64) -> u128 {
    clamp_u128(acc_reward_per_share + reward_per_share(reward, total_staked))
}

/// The split is exhaustive and rounds in the depositors' favour: the two
/// parts add up to the revenue, and the operator's part is its exact share
/// rounded down, so it falls short of that share by less than one unit.
pub proof fn lemma_cut_within_revenue(new_revenue: u64, operator_bps: u64)
    requires
        operator_bps <= BPS_DENOMINATOR,
    ensures
        0 <= operator_cut(new_revenue, operator_bps) <= new_revenue,
        0 <= reward_cut(new_revenue, operator_bps) <= new_revenue,
        operator_cut(new_revenue, operator_bps) + reward_cut(new_revenue, operator_bps)
            == new_revenue,
        operator_cut(new_revenue, operator_bps) * BPS_DENOMINATOR <= new_revenue * operator_bps
            < (operator_cut(new_revenue, operator_bps) + 1) * BPS_DENOMINATOR,
{
    assert(0 <= new_revenue * operator_bps <= new_revenue * 10_000) by (nonlinear_arith)
        requires
            operator_bps <= 10_000,
    ;
}

/// What is owed is what has accrued, scaled down and rounded down: unless it
/// is clamped to the width of a balance, it falls short of what has accrued
/// by less than one unit. The part that is dropped is forfeited.
pub proof fn lemma_pending_rounds_down(amount: u64, acc_reward_per_share: u128, reward_debt: u128)
    ensures
        pending_value(amount, acc_reward_per_share, reward_debt) * ACC_PRECISION <= accrued_since(
            amount,
            acc_reward_per_share,
            reward_debt,
        ),
        pending_value(amount, acc_reward_per_share, reward_debt) < u64::MAX ==> accrued_since(
            amount,
            acc_reward_per_share,
            reward_debt,
        ) < (pending_value(amount, acc_reward_per_share, reward_debt) + 1) * ACC_PRECISION,
{
}

/// Recomputes a depositor's reward debt: the stake priced at the current
/// accumulator. Stored after every operation that changes the stake or pays
/// out what is pending.
pub fn checkpoint(amount: u64, acc_reward_per_share: u128) -> (reward_debt: u128)
    ensures
        reward_debt == checkpoint_value(amount, acc_reward_per_share),
{
    let stake: u128 = amount as u128;
    match stake.checked_mul(acc_reward_per_share) {
        Some(priced) => priced,
        None => u128::MAX,
    }
}

/// What is newly owed to a depositor since the last settlement.
pub fn pending_reward(amount: u64, acc_reward_per_share: u128, reward_debt: u128) -> (reward: u64)
    ensures
        reward == pending_value(amount, acc_reward_per_share, reward_debt),
{
    let priced: u128 = checkpoint(amount, acc_reward_per_share);
    let owed: u128 = priced.saturating_sub(reward_debt) / ACC_PRECISION;
    if owed > u64::MAX as u128 {
        u64::MAX
    } else {
        owed as u64
    }
}

/// Splits newly arrived revenue between the operator and the depositors.
/// The two parts always add up to `new_revenue`.
pub fn distribute_split(new_revenue: u64, operator_bps: u64) -> (cuts: (u64, u64))
    requires
        operator_bps <= BPS_DENOMINATOR,
    ensures
        cuts.0 == operator_cut(new_revenue, operator_bps),
        cuts.1 == reward_cut(new_revenue, operator_bps),
        cuts.0 + cuts.1 == new_revenue,
{
    proof {
        lemma_cut_within_revenue(new_revenue, operator_bps);
    }
    let scaled: u128 = new_revenue as u128 * operator_bps as u128;
    let operator: u64 = (scaled / BPS_DENOMINATOR as u128) as u64;
    (operator, new_revenue - operator)
}

/// Spreads `reward` over `total_staked` staked units and adds the result to
/// the accumulator.
pub fn accrue(acc_reward_per_share: u128, reward: u64, total_staked: u64) -> (next: u128)
    requires
        total_staked > 0,
    ensures
        next == accrued(acc_reward_per_share, reward, total_staked),
        next >= acc_reward_per_share,
{
    let scaled: u128 = reward as u128 * ACC_PRECISION;
    let increment: u128 = scaled / total_staked as u128;
    acc_reward_per_share.saturating_add(increment)
}

} // verus!
