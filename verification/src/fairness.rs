//! What two depositors with the same stake get out of one distribution.
//!
//! The pool spreads a reward over the staked units with one integer
//! division, and a depositor's share is scaled down with another. Both drop
//! their remainder, so a share can fall short of half the reward, but it
//! never exceeds it, and both depositors get the same, whoever claims first.

use crate::accrual::{
    accrued, checkpoint_value, pending_value, reward_per_share, ACC_PRECISION,
};
use crate::ledger::{claim_step, draw_step, pending_of, settled};
use crate::state::{PoolState, UserStake};
use vstd::arithmetic::div_mod::lemma_fundamental_div_mod;
use vstd::prelude::*;

verus! {

/// Pricing `amount` units at the accumulator that a reward of `reward` units
/// over `total_staked` units leads to stays within sixteen bytes, so nothing
/// is clamped on the way.
pub open spec fn accrual_fits(
    amount: u64,
    acc_reward_per_share: u128,
    reward: u64,
    total_staked: u64,
) -> bool {
    amount * (acc_reward_per_share + reward_per_share(reward, total_staked)) <= u128::MAX
}

/// What the first division drops when `reward` is spread over two stakes of
/// `amount` units each, in scaled units.
pub open spec fn spread_remainder(amount: u64, reward: u64) -> int {
    (reward * ACC_PRECISION) % (2 * amount)
}

/// The share of a stake of `amount` units, settled at `acc_reward_per_share`,
/// in a reward of `reward` units spread over two such stakes.
pub open spec fn half_share(amount: u64, acc_reward_per_share: u128, reward: u64) -> u64 {
    pending_value(
        amount,
        accrued(acc_reward_per_share, reward, (2 * amount) as u64),
        checkpoint_value(amount, acc_reward_per_share),
    )
}

/// The share of one of two equal stakes in a reward.
///
/// It is never more than half the reward. It falls short of half the reward,
/// rounded down, by more than one unit exactly when the first division drops
/// more than two scaled units (three, if the reward is odd), which cannot
/// happen while a stake is no larger than the scale.
pub proof fn lemma_half_share(amount: u64, acc_reward_per_share: u128, reward: u64)
    requires
        amount > 0,
        2 * amount <= u64::MAX,
        accrual_fits(amount, acc_reward_per_share, reward, (2 * amount) as u64),
    ensures
        ({
            let share = half_share(amount, acc_reward_per_share, reward);
            &&& share == amount * reward_per_share(reward, (2 * amount) as u64) / (
            ACC_PRECISION as int)
            &&& 2 * share <= reward
            &&& reward * ACC_PRECISION < 2 * ACC_PRECISION * (share + 1) + 2 * amount
            &&& (reward / 2 - share <= 1 <==> spread_remainder(amount, reward) <= (reward % 2)
                * ACC_PRECISION + 2 * ACC_PRECISION)
            &&& amount <= ACC_PRECISION ==> reward / 2 - share <= 1
        }),
{
    let total = 2 * amount;
    let scaled = reward * ACC_PRECISION;
    let increment = scaled / total;
    let acc = acc_reward_per_share as int;
    let earned = amount * increment;
    // scaled == total * increment + scaled % total, and the remainder is below total.
    lemma_fundamental_div_mod(scaled, total);
    // Each of the two stakes earns half of what the division handed out.
    assert(total * increment == 2 * earned) by (nonlinear_arith)
        requires
            total == 2 * amount,
            earned == amount * increment,
    ;
    // Nothing is clamped, so the stake's new price is its old price plus what it earned.
    assert(amount * (acc + increment) == amount * acc + earned) by (nonlinear_arith)
        requires
            earned == amount * increment,
    ;
    assert(0 <= earned && 0 <= amount * acc && acc + increment <= amount * (acc + increment))
        by (nonlinear_arith)
        requires
            earned == amount * increment,
            0 <= increment,
            0 <= acc,
            1 <= amount,
    ;
}

/// Fairness among equals. Two depositors hold the same stake, were both
/// settled at the pool's accumulator, and are the pool's only stakers. After
/// one distribution both are owed the same, a claim of one leaves what the
/// other is owed untouched, and what each is owed is the half share of
/// [`lemma_half_share`] in the depositors' part of the revenue.
pub proof fn lemma_equal_stakes_share_alike(
    pool: PoolState,
    x: UserStake,
    y: UserStake,
    now: i64,
    vault_balance: u64,
)
    requires
        x.amount == y.amount,
        pool.total_staked == x.amount + y.amount,
        settled(pool, x),
        settled(pool, y),
        draw_step(pool, now, vault_balance) is Ok,
        accrual_fits(
            x.amount,
            pool.acc_reward_per_share,
            draw_step(pool, now, vault_balance)->Ok_0.1.reward,
            pool.total_staked,
        ),
    ensures
        ({
            let after = draw_step(pool, now, vault_balance)->Ok_0.0;
            let reward = draw_step(pool, now, vault_balance)->Ok_0.1.reward;
            let share = pending_of(after, x);
            &&& pending_of(after, y) == share
            &&& share == half_share(x.amount, pool.acc_reward_per_share, reward)
            &&& 2 * share <= reward
            &&& (reward / 2 - share <= 1 <==> spread_remainder(x.amount, reward) <= (reward % 2)
                * ACC_PRECISION + 2 * ACC_PRECISION)
            &&& x.amount <= ACC_PRECISION ==> reward / 2 - share <= 1
            &&& claim_step(after, x) matches Ok(paid) ==> paid.receipt.amount == share
                && pending_of(paid.pool, y) == share
            &&& claim_step(after, y) matches Ok(paid) ==> paid.receipt.amount == share
                && pending_of(paid.pool, x) == share
        }),
{
    let reward = draw_step(pool, now, vault_balance)->Ok_0.1.reward;
    lemma_half_share(x.amount, pool.acc_reward_per_share, reward);
}

} // verus!
