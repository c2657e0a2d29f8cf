//! The four operations on the ledgers: deposit (`stake`), withdraw
//! (`unstake`), `claim` and distribute (`draw_weekly`).
//!
//! An operation moves no value itself. It updates the ledgers and returns a
//! receipt that names the transfers that go with it; the caller has the
//! custody service carry them out, in the order of the receipt's fields, and
//! discards the update if one of them fails. A rejected operation leaves both
//! ledgers as they were and asks for no transfer.

use crate::accrual::{
    accrue, accrued, checkpoint, checkpoint_value, clamp_u64, distribute_split, operator_cut,
    pending_reward, pending_value, reward_cut, OPERATOR_BPS,
};
use crate::state::{LotteryError, PoolState, UserStake};
use crate::transfer::{Authority, Party, Transfer};
use vstd::prelude::*;

verus! {

/// The transfers of a deposit.
#[derive(Clone, Copy, Debug, PartialEq, Eq)]
pub struct StakeReceipt {
    /// First, what was pending is paid out of the reward vault to the
    /// depositor; `None` if nothing was pending.
    pub payout: Option<Transfer>,
    /// Then the principal moves from the depositor into the stake vault.
    pub deposit: Transfer,
}

/// The transfers of a withdrawal.
#[derive(Clone, Copy, Debug, PartialEq, Eq)]
pub struct UnstakeReceipt {
    /// First, what was pending is paid out of the reward vault to the
    /// depositor; `None` if nothing was pending.
    pub payout: Option<Transfer>,
    /// Then the principal returns from the stake vault to the depositor.
    pub refund: Transfer,
}

/// How a distribution divided the revenue that had arrived.
#[derive(Clone, Copy, Debug, PartialEq, Eq)]
pub struct DrawReceipt {
    /// The owner's share is paid out of the reward vault to the owner;
    /// `None` if the share is zero.
    pub creator_share: Option<Transfer>,
    /// The depositors' share. It stays in the reward vault and is accounted
    /// for from now on.
    pub reward: u64,
}

/// Both ledgers after an operation of one depositor, with its receipt.
pub struct Settled<R> {
    pub pool: PoolState,
    pub user: UserStake,
    pub receipt: R,
}

/// What `user` is owed by `pool` right now.
pub open spec fn pending_of(pool: PoolState, user: UserStake) -> u64 {
    pending_value(user.amount, pool.acc_reward_per_share, user.reward_debt)
}

/// The depositor's debt is the stake priced at the pool's accumulator, so
/// nothing is pending.
pub open spec fn settled(pool: PoolState, user: UserStake) -> bool {
    user.reward_debt == checkpoint_value(user.amount, pool.acc_reward_per_share)
}

/// A payment of `amount` out of the reward vault of `pool`, signed for with
/// the integrity byte that the pool has on record for that vault.
pub open spec fn reward_payment(pool: PoolState, to: Party, amount: u64) -> Transfer {
    Transfer {
        from: Party::RewardVault,
        to,
        amount,
        authority: Authority::Pool { bump: pool.vault_bump },
    }
}

/// A payment of `amount` out of the reward vault, unless `amount` is zero.
pub open spec fn reward_payment_if_any(pool: PoolState, to: Party, amount: u64) -> Option<
    Transfer,
> {
    if amount > 0 {
        Some(reward_payment(pool, to, amount))
    } else {
        None
    }
}

/// The principal of a deposit on its way into the stake vault: the depositor
/// signs for it.
pub open spec fn principal_in(amount: u64) -> Transfer {
    Transfer {
        from: Party::Depositor,
        to: Party::StakeVault,
        amount,
        authority: Authority::Holder,
    }
}

/// The principal of a withdrawal on its way out of the stake vault of `pool`,
/// signed for with the integrity byte that the pool has on record for that
/// vault.
pub open spec fn principal_out(pool: PoolState, amount: u64) -> Transfer {
    Transfer {
        from: Party::StakeVault,
        to: Party::Depositor,
        amount,
        authority: Authority::Pool { bump: pool.staking_bump },
    }
}

/// A deposit of `amount`: pays out what is pending, then adds `amount` to the
/// depositor's stake and to the pool's total, and prices the new stake.
pub open spec fn stake_step(pool: PoolState, user: UserStake, amount: u64) -> Result<
    Settled<StakeReceipt>,
    LotteryError,
> {
    if amount == 0 {
        Err(LotteryError::ZeroAmount)
    } else {
        let pending = pending_of(pool, user);
        let staked = clamp_u64(user.amount + amount);
        Ok(
            Settled {
                pool: PoolState {
                    total_staked: clamp_u64(pool.total_staked + amount),
                    vault_accounted: clamp_u64(pool.vault_accounted - pending),
                    ..pool
                },
                user: UserStake {
                    amount: staked,
                    reward_debt: checkpoint_value(staked, pool.acc_reward_per_share),
                },
                receipt: StakeReceipt {
                    payout: reward_payment_if_any(pool, Party::Depositor, pending),
                    deposit: principal_in(amount),
                },
            },
        )
    }
}

/// A withdrawal of `amount`: pays out what is pending, then takes `amount`
/// from the depositor's stake and from the pool's total, and prices what is
/// left.
pub open spec fn unstake_step(pool: PoolState, user: UserStake, amount: u64) -> Result<
    Settled<UnstakeReceipt>,
    LotteryError,
> {
    if amount == 0 || amount > user.amount {
        Err(LotteryError::BadUnstakeAmount)
    } else {
        let pending = pending_of(pool, user);
        let staked = (user.amount - amount) as u64;
        Ok(
            Settled {
                pool: PoolState {
                    total_staked: clamp_u64(pool.total_staked - amount),
                    vault_accounted: clamp_u64(pool.vault_accounted - pending),
                    ..pool
                },
                user: UserStake {
                    amount: staked,
                    reward_debt: checkpoint_value(staked, pool.acc_reward_per_share),
                },
                receipt: UnstakeReceipt {
                    payout: reward_payment_if_any(pool, Party::Depositor, pending),
                    refund: principal_out(pool, amount),
                },
            },
        )
    }
}

/// A claim: pays out what is pending and prices the stake anew. The receipt
/// is the payment out of the reward vault to the depositor.
pub open spec fn claim_step(pool: PoolState, user: UserStake) -> Result<
    Settled<Transfer>,
    LotteryError,
> {
    let pending = pending_of(pool, user);
    if pending == 0 {
        Err(LotteryError::NothingToClaim)
    } else {
        Ok(
            Settled {
                pool: PoolState {
                    vault_accounted: clamp_u64(pool.vault_accounted - pending),
                    ..pool
                },
                user: UserStake {
                    amount: user.amount,
                    reward_debt: checkpoint_value(user.amount, pool.acc_reward_per_share),
                },
                receipt: reward_payment(pool, Party::Depositor, pending),
            },
        )
    }
}

/// A distribution at time `now`, with `vault_balance` units in the reward
/// vault: what has arrived since the last one is divided between the owner
/// and the depositors, and the depositors' part raises the accumulator.
pub open spec fn draw_step(pool: PoolState, now: i64, vault_balance: u64) -> Result<
    (PoolState, DrawReceipt),
    LotteryError,
> {
    if now < pool.last_draw_ts + pool.draw_interval {
        Err(LotteryError::TooEarly)
    } else if vault_balance < pool.vault_accounted {
        Err(LotteryError::Invariant)
    } else if vault_balance == pool.vault_accounted {
        Err(LotteryError::NoNewFees)
    } else {
        let delta = (vault_balance - pool.vault_accounted) as u64;
        let creator_share = operator_cut(delta, OPERATOR_BPS) as u64;
        let reward = reward_cut(delta, OPERATOR_BPS) as u64;
        if reward > 0 && pool.total_staked == 0 {
            Err(LotteryError::NoStakers)
        } else {
            Ok(
                (
                    PoolState {
                        acc_reward_per_share: if reward > 0 {
                            accrued(pool.acc_reward_per_share, reward, pool.total_staked)
                        } else {
                            pool.acc_reward_per_share
                        },
                        vault_accounted: (pool.vault_accounted + reward) as u64,
                        last_draw_ts: now,
                        ..pool
                    },
                    DrawReceipt {
                        creator_share: reward_payment_if_any(pool, Party::Owner, creator_share),
                        reward,
                    },
                ),
            )
        }
    }
}

/// A depositor without stake is owed nothing, whatever the debt on record.
pub proof fn lemma_no_stake_nothing_pending(acc_reward_per_share: u128, reward_debt: u128)
    ensures
        pending_value(0, acc_reward_per_share, reward_debt) == 0,
{
}

/// Right after a settlement nothing is pending.
pub proof fn lemma_settled_nothing_pending(pool: PoolState, user: UserStake)
    requires
        settled(pool, user),
    ensures
        pending_of(pool, user) == 0,
{
}

/// Checkpoint idempotence: whatever the first of two claims in a row did, the
/// second finds nothing to claim.
pub proof fn lemma_second_claim_finds_nothing(pool: PoolState, user: UserStake)
    ensures
        match claim_step(pool, user) {
            Ok(paid) => claim_step(paid.pool, paid.user) == Err::<Settled<Transfer>, LotteryError>(
                LotteryError::NothingToClaim,
            ),
            Err(_) => claim_step(pool, user) == Err::<Settled<Transfer>, LotteryError>(
                LotteryError::NothingToClaim,
            ),
        },
{
}

/// Nothing is left to claim right after a deposit or a withdrawal either.
pub proof fn lemma_claim_after_settlement_finds_nothing(
    pool: PoolState,
    user: UserStake,
    amount: u64,
)
    ensures
        stake_step(pool, user, amount) matches Ok(next) ==> claim_step(next.pool, next.user)
            == Err::<Settled<Transfer>, LotteryError>(LotteryError::NothingToClaim),
        unstake_step(pool, user, amount) matches Ok(next) ==> claim_step(next.pool, next.user)
            == Err::<Settled<Transfer>, LotteryError>(LotteryError::NothingToClaim),
{
}

/// The rate limit: after a distribution at time `now`, a well-formed pool
/// rejects every distribution asked for before `now` plus its interval, and
/// so the one asked for again at once.
pub proof fn lemma_draw_again_is_too_early(
    pool: PoolState,
    now: i64,
    vault_balance: u64,
    later: i64,
    later_balance: u64,
)
    requires
        pool.well_formed(),
        draw_step(pool, now, vault_balance) is Ok,
        later < now + pool.draw_interval,
    ensures
        draw_step(draw_step(pool, now, vault_balance)->Ok_0.0, later, later_balance) == Err::<
            (PoolState, DrawReceipt),
            LotteryError,
        >(LotteryError::TooEarly),
        draw_step(draw_step(pool, now, vault_balance)->Ok_0.0, now, later_balance) == Err::<
            (PoolState, DrawReceipt),
            LotteryError,
        >(LotteryError::TooEarly),
{
}

/// Of revenue that has arrived, the depositors' part is never empty, so a
/// distribution that is due and finds new revenue fails exactly when nobody
/// has a stake.
pub proof fn lemma_draw_needs_stakers(pool: PoolState, now: i64, vault_balance: u64)
    requires
        now >= pool.last_draw_ts + pool.draw_interval,
        vault_balance > pool.vault_accounted,
    ensures
        reward_cut((vault_balance - pool.vault_accounted) as u64, OPERATOR_BPS) > 0,
        draw_step(pool, now, vault_balance) is Err <==> pool.total_staked == 0,
        pool.total_staked == 0 ==> draw_step(pool, now, vault_balance) == Err::<
            (PoolState, DrawReceipt),
            LotteryError,
        >(LotteryError::NoStakers),
{
}

/// Every transfer that an operation asks for is well formed: the pool signs
/// for what leaves a vault, with the integrity byte it has on record for that
/// vault, the depositor signs for a deposit, nothing moves from one vault
/// into the other, and a payout that is asked for is never empty.
pub proof fn lemma_receipts_are_well_formed(
    pool: PoolState,
    user: UserStake,
    amount: u64,
    now: i64,
    vault_balance: u64,
)
    ensures
        stake_step(pool, user, amount) matches Ok(next) ==> {
            &&& next.receipt.deposit.well_formed()
            &&& next.receipt.payout matches Some(payout) ==> payout.well_formed() && payout.amount
                > 0
        },
        unstake_step(pool, user, amount) matches Ok(next) ==> {
            &&& next.receipt.refund.well_formed()
            &&& next.receipt.payout matches Some(payout) ==> payout.well_formed() && payout.amount
                > 0
        },
        claim_step(pool, user) matches Ok(next) ==> next.receipt.well_formed()
            && next.receipt.amount > 0,
        draw_step(pool, now, vault_balance) matches Ok(next) ==> (next.1.creator_share matches Some(
            payout,
        ) ==> payout.well_formed() && payout.amount > 0),
{
}

/// Pays `amount` out of the reward vault of `pool`, unless it is zero.
fn pay_from_reward_vault(pool: &PoolState, to: Party, amount: u64) -> (payout: Option<Transfer>)
    ensures
        payout == reward_payment_if_any(*pool, to, amount),
{
    if amount > 0 {
        Some(
            Transfer {
                from: Party::RewardVault,
                to,
                amount,
                authority: Authority::Pool { bump: pool.vault_bump },
            },
        )
    } else {
        None
    }
}

/// Deposits `amount` for one depositor.
pub fn stake(pool: &mut PoolState, user: &mut UserStake, amount: u64) -> (result: Result<
    StakeReceipt,
    LotteryError,
>)
    ensures
        match stake_step(*old(pool), *old(user), amount) {
            Ok(next) => result == Ok::<StakeReceipt, LotteryError>(next.receipt) && *final(pool)
                == next.pool && *final(user) == next.user,
            Err(e) => result == Err::<StakeReceipt, LotteryError>(e) && *final(pool) == *old(pool)
                && *final(user) == *old(user),
        },
        result is Err <==> amount == 0,
        result is Ok ==> settled(*final(pool), *final(user)),
        final(pool).acc_reward_per_share == old(pool).acc_reward_per_share,
{
    if amount == 0 {
        return Err(LotteryError::ZeroAmount);
    }
    let mut pending: u64 = 0;
    if user.amount > 0 {
        pending = pending_reward(user.amount, pool.acc_reward_per_share, user.reward_debt);
    } else {
        proof {
            lemma_no_stake_nothing_pending(pool.acc_reward_per_share, user.reward_debt);
        }
    }
    let payout = pay_from_reward_vault(pool, Party::Depositor, pending);
    if pending > 0 {
        pool.vault_accounted = pool.vault_accounted.saturating_sub(pending);
    }
    let deposit = Transfer {
        from: Party::Depositor,
        to: Party::StakeVault,
        amount,
        authority: Authority::Holder,
    };
    pool.total_staked = pool.total_staked.saturating_add(amount);
    user.amount = user.amount.saturating_add(amount);
    user.reward_debt = checkpoint(user.amount, pool.acc_reward_per_share);
    Ok(StakeReceipt { payout, deposit })
}

/// Withdraws `amount` of one depositor's stake.
pub fn unstake(pool: &mut PoolState, user: &mut UserStake, amount: u64) -> (result: Result<
    UnstakeReceipt,
    LotteryError,
>)
    ensures
        match unstake_step(*old(pool), *old(user), amount) {
            Ok(next) => result == Ok::<UnstakeReceipt, LotteryError>(next.receipt) && *final(pool)
                == next.pool && *final(user) == next.user,
            Err(e) => result == Err::<UnstakeReceipt, LotteryError>(e) && *final(pool) == *old(
                pool,
            ) && *final(user) == *old(user),
        },
        result is Err <==> amount == 0 || amount > old(user).amount,
        result is Ok ==> settled(*final(pool), *final(user)),
        final(pool).acc_reward_per_share == old(pool).acc_reward_per_share,
{
    if !(amount > 0 && amount <= user.amount) {
        return Err(LotteryError::BadUnstakeAmount);
    }
    let pending: u64 = pending_reward(user.amount, pool.acc_reward_per_share, user.reward_debt);
    let payout = pay_from_reward_vault(pool, Party::Depositor, pending);
    if pending > 0 {
        pool.vault_accounted = pool.vault_accounted.saturating_sub(pending);
    }
    let refund = Transfer {
        from: Party::StakeVault,
        to: Party::Depositor,
        amount,
        authority: Authority::Pool { bump: pool.staking_bump },
    };
    pool.total_staked = pool.total_staked.saturating_sub(amount);
    user.amount = user.amount.saturating_sub(amount);
    user.reward_debt = checkpoint(user.amount, pool.acc_reward_per_share);
    Ok(UnstakeReceipt { payout, refund })
}

/// Pays out what one depositor is owed.
pub fn claim(pool: &mut PoolState, user: &mut UserStake) -> (result: Result<
    Transfer,
    LotteryError,
>)
    ensures
        match claim_step(*old(pool), *old(user)) {
            Ok(next) => result == Ok::<Transfer, LotteryError>(next.receipt) && *final(pool)
                == next.pool && *final(user) == next.user,
            Err(e) => result == Err::<Transfer, LotteryError>(e) && *final(pool) == *old(pool)
                && *final(user) == *old(user),
        },
        result is Err <==> pending_of(*old(pool), *old(user)) == 0,
        result is Ok ==> settled(*final(pool), *final(user)),
        final(pool).acc_reward_per_share == old(pool).acc_reward_per_share,
        final(pool).total_staked == old(pool).total_staked,
        final(user).amount == old(user).amount,
{
    let pending: u64 = pending_reward(user.amount, pool.acc_reward_per_share, user.reward_debt);
    if pending == 0 {
        return Err(LotteryError::NothingToClaim);
    }
    let payout = Transfer {
        from: Party::RewardVault,
        to: Party::Depositor,
        amount: pending,
        authority: Authority::Pool { bump: pool.vault_bump },
    };
    pool.vault_accounted = pool.vault_accounted.saturating_sub(pending);
    user.reward_debt = checkpoint(user.amount, pool.acc_reward_per_share);
    Ok(payout)
}

/// Distributes the revenue that has arrived in the reward vault since the
/// last distribution. Anyone may ask for it, once per interval.
pub fn draw_weekly(pool: &mut PoolState, now: i64, vault_balance: u64) -> (result: Result<
    DrawReceipt,
    LotteryError,
>)
    ensures
        match draw_step(*old(pool), now, vault_balance) {
            Ok(next) => result == Ok::<DrawReceipt, LotteryError>(next.1) && *final(pool)
                == next.0,
            Err(e) => result == Err::<DrawReceipt, LotteryError>(e) && *final(pool) == *old(pool),
        },
        result is Ok <==> now >= old(pool).last_draw_ts + old(pool).draw_interval && vault_balance
            > old(pool).vault_accounted && old(pool).total_staked > 0,
        final(pool).acc_reward_per_share >= old(pool).acc_reward_per_share,
        final(pool).total_staked == old(pool).total_staked,
        result matches Ok(receipt) ==> final(pool).vault_accounted == old(pool).vault_accounted
            + receipt.reward && final(pool).last_draw_ts == now,
{
    if (now as i128) < pool.last_draw_ts as i128 + pool.draw_interval as i128 {
        return Err(LotteryError::TooEarly);
    }
    if vault_balance < pool.vault_accounted {
        return Err(LotteryError::Invariant);
    }
    let delta: u64 = vault_balance - pool.vault_accounted;
    if delta == 0 {
        return Err(LotteryError::NoNewFees);
    }
    let (creator_share, reward) = distribute_split(delta, OPERATOR_BPS);
    let payout = pay_from_reward_vault(pool, Party::Owner, creator_share);
    if reward > 0 {
        if pool.total_staked == 0 {
            return Err(LotteryError::NoStakers);
        }
        pool.acc_reward_per_share = accrue(pool.acc_reward_per_share, reward, pool.total_staked);
        pool.vault_accounted = pool.vault_accounted + reward;
    }
    pool.last_draw_ts = now;
    Ok(DrawReceipt { creator_share: payout, reward })
}

} // verus!
