//! The persistent records: one pool ledger per pool, one depositor ledger per
//! depositor of a pool, and the reasons an operation can be rejected for.

use anchor_lang::prelude::Pubkey;
use vstd::prelude::*;

verus! {

/// `anchor_lang::prelude::Pubkey`, the 32-byte identity of an account. The
/// ledger stores identities and hands them back; it never looks inside one.
#[verifier::external_type_specification]
#[verifier::external_body]
pub struct ExPubkey(Pubkey);

/// Why an operation was rejected. A rejected operation changes nothing.
#[derive(Clone, Copy, Debug, PartialEq, Eq, Structural)]
pub enum LotteryError {
    /// The interval between distributions is not positive.
    BadInterval,
    /// The fee is more than one hundred percent.
    BadFee,
    /// The amount is zero.
    ZeroAmount,
    /// The amount to withdraw is zero or more than the depositor's stake.
    BadUnstakeAmount,
    /// Nothing is pending for the depositor.
    NothingToClaim,
    /// The interval since the last distribution has not passed yet.
    TooEarly,
    /// The reward vault holds less than the ledger has accounted for.
    Invariant,
    /// No revenue has arrived since the last distribution.
    NoNewFees,
    /// There is a reward to spread and no stake to spread it over.
    NoStakers,
}

/// The ledger of a pool.
#[derive(Clone, Copy, Debug, PartialEq, Eq)]
pub struct PoolState {
    /// Who receives the operator's share. Never changes.
    pub owner: Pubkey,
    /// The asset that the pool holds. Never changes.
    pub mint: Pubkey,
    /// The integrity byte of the reward vault's signing authority.
    pub vault_bump: u8,
    /// The integrity byte of the stake vault's signing authority.
    pub staking_bump: u8,
    /// The stake of all depositors together.
    pub total_staked: u64,
    /// The reward earned per staked unit since the pool was created, scaled
    /// by [`crate::accrual::ACC_PRECISION`]. Never decreases.
    pub acc_reward_per_share: u128,
    /// When revenue was last distributed.
    pub last_draw_ts: i64,
    /// The least number of seconds between two distributions.
    pub draw_interval: i64,
    /// How much of the reward vault's balance is owed to depositors and not
    /// yet claimed. What the vault holds beyond it is new revenue.
    pub vault_accounted: u64,
}

impl PoolState {
    /// The width of the stored record, in bytes.
    pub const SIZE: usize = 32 + 32 + 1 + 1 + 8 + 16 + 8 + 8 + 8;

    /// The interval between distributions is positive.
    pub open spec fn well_formed(self) -> bool {
        self.draw_interval > 0
    }

    /// The ledger of a pool that was created at time `now`: no stake, no
    /// accrual, nothing accounted for.
    pub open spec fn fresh(
        owner: Pubkey,
        mint: Pubkey,
        vault_bump: u8,
        staking_bump: u8,
        now: i64,
        draw_interval: i64,
    ) -> PoolState {
        PoolState {
            owner,
            mint,
            vault_bump,
            staking_bump,
            total_staked: 0,
            acc_reward_per_share: 0,
            last_draw_ts: now,
            draw_interval,
            vault_accounted: 0,
        }
    }
}

/// The ledger of one depositor of a pool.
#[derive(Clone, Copy, Debug, PartialEq, Eq, Structural)]
pub struct UserStake {
    /// The depositor's stake.
    pub amount: u64,
    /// The stake priced at the pool's accumulator, as of the last deposit,
    /// withdrawal or claim.
    pub reward_debt: u128,
}

impl UserStake {
    /// The width of the stored record, in bytes.
    pub const SIZE: usize = 8 + 16;
}

/// Creates the ledger of a pool at time `now`.
pub fn initialize(
    owner: Pubkey,
    mint: Pubkey,
    vault_bump: u8,
    staking_bump: u8,
    now: i64,
    draw_interval_secs: i64,
) -> (result: Result<PoolState, LotteryError>)
    ensures
        draw_interval_secs <= 0 ==> result == Err::<PoolState, LotteryError>(
            LotteryError::BadInterval,
        ),
        draw_interval_secs > 0 ==> result == Ok::<PoolState, LotteryError>(
            PoolState::fresh(owner, mint, vault_bump, staking_bump, now, draw_interval_secs),
        ),
        result matches Ok(pool) ==> pool.well_formed(),
{
    if draw_interval_secs <= 0 {
        return Err(LotteryError::BadInterval);
    }
    Ok(
        PoolState {
            owner,
            mint,
            vault_bump,
            staking_bump,
            total_staked: 0,
            acc_reward_per_share: 0,
            last_draw_ts: now,
            draw_interval: draw_interval_secs,
            vault_accounted: 0,
        },
    )
}

} // verus!
