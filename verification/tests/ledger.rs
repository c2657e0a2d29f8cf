use anchor_lang::prelude::Pubkey;
use sol_lottery::accrual::ACC_PRECISION;
use sol_lottery::ledger::{DrawReceipt, StakeReceipt, UnstakeReceipt};
use sol_lottery::transfer::{Authority, Party, Transfer};
use sol_lottery::{claim, draw_weekly, initialize, stake, unstake, LotteryError, PoolState, UserStake};

const WEEK: i64 = 604_800;
const START: i64 = 1_700_000_000;

fn new_pool() -> PoolState {
    let owner = Pubkey::new_from_array([1u8; 32]);
    let mint = Pubkey::new_from_array([2u8; 32]);
    initialize(owner, mint, 254, 253, START, WEEK).unwrap()
}

/// A payment out of the reward vault, signed for with the vault's integrity byte.
fn from_reward_vault(to: Party, amount: u64) -> Transfer {
    Transfer { from: Party::RewardVault, to, amount, authority: Authority::Pool { bump: 254 } }
}

/// Principal on its way from the depositor into the stake vault.
fn principal_in(amount: u64) -> Transfer {
    Transfer {
        from: Party::Depositor,
        to: Party::StakeVault,
        amount,
        authority: Authority::Holder,
    }
}

/// Principal on its way out of the stake vault, signed for with its integrity byte.
fn principal_out(amount: u64) -> Transfer {
    Transfer {
        from: Party::StakeVault,
        to: Party::Depositor,
        amount,
        authority: Authority::Pool { bump: 253 },
    }
}

fn staked(claimed: u64, deposited: u64) -> StakeReceipt {
    StakeReceipt {
        payout: if claimed > 0 { Some(from_reward_vault(Party::Depositor, claimed)) } else { None },
        deposit: principal_in(deposited),
    }
}

fn unstaked(claimed: u64, withdrawn: u64) -> UnstakeReceipt {
    UnstakeReceipt {
        payout: if claimed > 0 { Some(from_reward_vault(Party::Depositor, claimed)) } else { None },
        refund: principal_out(withdrawn),
    }
}

fn drawn(creator_share: u64, reward: u64) -> DrawReceipt {
    DrawReceipt {
        creator_share: if creator_share > 0 {
            Some(from_reward_vault(Party::Owner, creator_share))
        } else {
            None
        },
        reward,
    }
}

fn claimed(amount: u64) -> Transfer {
    from_reward_vault(Party::Depositor, amount)
}

fn new_depositor() -> UserStake {
    UserStake { amount: 0, reward_debt: 0 }
}

/// A pool in which one depositor holds 1000 and 300 of revenue were distributed.
fn pool_after_first_distribution() -> (PoolState, UserStake) {
    let mut pool = new_pool();
    let mut x = new_depositor();
    stake(&mut pool, &mut x, 1000).unwrap();
    draw_weekly(&mut pool, START + WEEK, 300).unwrap();
    (pool, x)
}

#[test]
fn first_deposit_moves_principal_only() {
    let mut pool = new_pool();
    let mut x = new_depositor();
    let receipt = stake(&mut pool, &mut x, 1000);
    assert_eq!(receipt, Ok(staked(0, 1000)));
    assert_eq!(pool.total_staked, 1000);
    assert_eq!(pool.vault_accounted, 0);
    assert_eq!(pool.acc_reward_per_share, 0);
    assert_eq!(x, UserStake { amount: 1000, reward_debt: 0 });
}

#[test]
fn first_distribution_pays_the_operator_and_accrues_the_rest() {
    let mut pool = new_pool();
    let mut x = new_depositor();
    stake(&mut pool, &mut x, 1000).unwrap();
    let before = pool;
    let receipt = draw_weekly(&mut pool, START + WEEK, 300);
    assert_eq!(receipt, Ok(drawn(90, 210)));
    assert_eq!(
        pool.acc_reward_per_share - before.acc_reward_per_share,
        210 * ACC_PRECISION / 1000
    );
    assert_eq!(pool.acc_reward_per_share, 210_000_000_000);
    assert_eq!(pool.vault_accounted, before.vault_accounted + 210);
    assert_eq!(pool.last_draw_ts, START + WEEK);
    assert_eq!(pool.total_staked, 1000);
    assert_eq!(pool.owner, before.owner);
    assert_eq!(pool.mint, before.mint);
    assert_eq!(pool.draw_interval, WEEK);
    assert_eq!(pool.vault_bump, 254);
    assert_eq!(pool.staking_bump, 253);
}

#[test]
fn claim_after_distribution_pays_what_accrued() {
    let (mut pool, mut x) = pool_after_first_distribution();
    assert_eq!(pool.vault_accounted, 210);
    let paid = claim(&mut pool, &mut x);
    assert_eq!(paid, Ok(claimed(210)));
    assert_eq!(pool.vault_accounted, 0);
    assert_eq!(x.amount, 1000);
    assert_eq!(x.reward_debt, 1000 * pool.acc_reward_per_share);
    assert_eq!(x.reward_debt, 210_000_000_000_000);
    assert_eq!(pool.total_staked, 1000);
}

#[test]
fn distribution_before_the_interval_has_passed_is_too_early() {
    let (mut pool, _x) = pool_after_first_distribution();
    let before = pool;
    assert_eq!(draw_weekly(&mut pool, START + WEEK, 210), Err(LotteryError::TooEarly));
    assert_eq!(pool, before);
    assert_eq!(draw_weekly(&mut pool, START + WEEK, 10_000), Err(LotteryError::TooEarly));
    assert_eq!(pool, before);
    assert_eq!(
        draw_weekly(&mut pool, START + 2 * WEEK - 1, 10_000),
        Err(LotteryError::TooEarly)
    );
    assert_eq!(pool, before);
    assert!(draw_weekly(&mut pool, START + 2 * WEEK, 10_000).is_ok());
}

#[test]
fn two_equal_depositors_share_a_distribution_equally() {
    let (mut pool, mut x) = pool_after_first_distribution();
    assert_eq!(claim(&mut pool, &mut x), Ok(claimed(210)));
    let mut y = new_depositor();
    assert_eq!(
        stake(&mut pool, &mut y, 1000),
        Ok(staked(0, 1000))
    );
    assert_eq!(pool.total_staked, 2000);
    assert_eq!(y.reward_debt, 210_000_000_000_000);
    // The vault held 300, paid 90 to the owner and 210 to the depositor; 200 arrive.
    let receipt = draw_weekly(&mut pool, START + 2 * WEEK, 200);
    assert_eq!(receipt, Ok(drawn(60, 140)));
    assert_eq!(pool.acc_reward_per_share, 280_000_000_000);
    assert_eq!(pool.vault_accounted, 140);
    assert_eq!(claim(&mut pool, &mut x), Ok(claimed(70)));
    assert_eq!(claim(&mut pool, &mut y), Ok(claimed(70)));
    assert_eq!(pool.vault_accounted, 0);
}

#[test]
fn equal_depositors_get_the_same_in_either_order() {
    let (mut pool, mut x) = pool_after_first_distribution();
    claim(&mut pool, &mut x).unwrap();
    let mut y = new_depositor();
    stake(&mut pool, &mut y, 1000).unwrap();
    draw_weekly(&mut pool, START + 2 * WEEK, 201).unwrap();
    let (mut pool_a, mut xa, mut ya) = (pool, x, y);
    let first_x = claim(&mut pool_a, &mut xa).unwrap().amount;
    let then_y = claim(&mut pool_a, &mut ya).unwrap().amount;
    let (mut pool_b, mut xb, mut yb) = (pool, x, y);
    let first_y = claim(&mut pool_b, &mut yb).unwrap().amount;
    let then_x = claim(&mut pool_b, &mut xb).unwrap().amount;
    assert_eq!(first_x, then_x);
    assert_eq!(first_y, then_y);
    assert_eq!(first_x, first_y);
    // 201 arrive: 60 to the owner, 141 to the depositors, 70 each; one unit stays.
    assert_eq!(first_x, 70);
    assert_eq!(pool_a.vault_accounted, 1);
    assert_eq!(pool_b.vault_accounted, 1);
}

#[test]
fn withdrawing_more_than_the_stake_is_rejected() {
    let (mut pool, mut x) = pool_after_first_distribution();
    let (pool_before, x_before) = (pool, x);
    assert_eq!(
        unstake(&mut pool, &mut x, x_before.amount + 1),
        Err(LotteryError::BadUnstakeAmount)
    );
    assert_eq!(pool, pool_before);
    assert_eq!(x, x_before);
    assert_eq!(unstake(&mut pool, &mut x, u64::MAX), Err(LotteryError::BadUnstakeAmount));
    assert_eq!(pool, pool_before);
    assert_eq!(x, x_before);
}

#[test]
fn withdrawing_nothing_is_rejected() {
    let (mut pool, mut x) = pool_after_first_distribution();
    let (pool_before, x_before) = (pool, x);
    assert_eq!(unstake(&mut pool, &mut x, 0), Err(LotteryError::BadUnstakeAmount));
    assert_eq!(pool, pool_before);
    assert_eq!(x, x_before);
    let mut nobody = new_depositor();
    assert_eq!(unstake(&mut pool, &mut nobody, 1), Err(LotteryError::BadUnstakeAmount));
    assert_eq!(unstake(&mut pool, &mut nobody, 0), Err(LotteryError::BadUnstakeAmount));
}

#[test]
fn depositing_nothing_is_rejected() {
    let (mut pool, mut x) = pool_after_first_distribution();
    let (pool_before, x_before) = (pool, x);
    assert_eq!(stake(&mut pool, &mut x, 0), Err(LotteryError::ZeroAmount));
    assert_eq!(pool, pool_before);
    assert_eq!(x, x_before);
}

#[test]
fn second_deposit_pays_out_what_is_pending() {
    let (mut pool, mut x) = pool_after_first_distribution();
    let receipt = stake(&mut pool, &mut x, 500);
    assert_eq!(receipt, Ok(staked(210, 500)));
    assert_eq!(pool.total_staked, 1500);
    assert_eq!(pool.vault_accounted, 0);
    assert_eq!(x.amount, 1500);
    assert_eq!(x.reward_debt, 1500 * 210_000_000_000);
    assert_eq!(claim(&mut pool, &mut x), Err(LotteryError::NothingToClaim));
}

#[test]
fn withdrawal_pays_out_what_is_pending() {
    let (mut pool, mut x) = pool_after_first_distribution();
    let receipt = unstake(&mut pool, &mut x, 400);
    assert_eq!(receipt, Ok(unstaked(210, 400)));
    assert_eq!(pool.total_staked, 600);
    assert_eq!(pool.vault_accounted, 0);
    assert_eq!(x.amount, 600);
    assert_eq!(x.reward_debt, 600 * 210_000_000_000);
    assert_eq!(claim(&mut pool, &mut x), Err(LotteryError::NothingToClaim));
}

#[test]
fn withdrawing_everything_leaves_an_empty_ledger() {
    let (mut pool, mut x) = pool_after_first_distribution();
    let receipt = unstake(&mut pool, &mut x, 1000);
    assert_eq!(receipt, Ok(unstaked(210, 1000)));
    assert_eq!(x, UserStake { amount: 0, reward_debt: 0 });
    assert_eq!(pool.total_staked, 0);
    assert_eq!(claim(&mut pool, &mut x), Err(LotteryError::NothingToClaim));
    assert_eq!(unstake(&mut pool, &mut x, 1), Err(LotteryError::BadUnstakeAmount));
    assert_eq!(
        stake(&mut pool, &mut x, 5),
        Ok(staked(0, 5))
    );
}

#[test]
fn withdrawal_without_pending_reward_moves_principal_only() {
    let mut pool = new_pool();
    let mut x = new_depositor();
    stake(&mut pool, &mut x, 1000).unwrap();
    assert_eq!(
        unstake(&mut pool, &mut x, 1),
        Ok(unstaked(0, 1))
    );
    assert_eq!(pool.total_staked, 999);
    assert_eq!(x.amount, 999);
}

#[test]
fn claiming_twice_in_a_row_fails_the_second_time() {
    let (mut pool, mut x) = pool_after_first_distribution();
    assert_eq!(claim(&mut pool, &mut x), Ok(claimed(210)));
    let (pool_before, x_before) = (pool, x);
    assert_eq!(claim(&mut pool, &mut x), Err(LotteryError::NothingToClaim));
    assert_eq!(pool, pool_before);
    assert_eq!(x, x_before);
}

#[test]
fn claiming_without_stake_finds_nothing() {
    let (mut pool, _x) = pool_after_first_distribution();
    let mut nobody = new_depositor();
    assert_eq!(claim(&mut pool, &mut nobody), Err(LotteryError::NothingToClaim));
    let mut stale = UserStake { amount: 0, reward_debt: 12345 };
    assert_eq!(claim(&mut pool, &mut stale), Err(LotteryError::NothingToClaim));
}

#[test]
fn claiming_less_than_one_unit_finds_nothing() {
    let mut pool = new_pool();
    let mut big = new_depositor();
    let mut small = new_depositor();
    stake(&mut pool, &mut big, 999).unwrap();
    stake(&mut pool, &mut small, 1).unwrap();
    // 1 arrives: nothing for the owner, 1 for 1000 staked units.
    assert_eq!(
        draw_weekly(&mut pool, START + WEEK, 1),
        Ok(drawn(0, 1))
    );
    assert_eq!(pool.acc_reward_per_share, 1_000_000_000);
    assert_eq!(claim(&mut pool, &mut small), Err(LotteryError::NothingToClaim));
    assert_eq!(claim(&mut pool, &mut big), Err(LotteryError::NothingToClaim));
    assert_eq!(pool.vault_accounted, 1);
}

#[test]
fn distribution_with_a_vault_below_the_books_is_an_invariant_violation() {
    let (mut pool, _x) = pool_after_first_distribution();
    let before = pool;
    assert_eq!(pool.vault_accounted, 210);
    assert_eq!(draw_weekly(&mut pool, START + 2 * WEEK, 209), Err(LotteryError::Invariant));
    assert_eq!(draw_weekly(&mut pool, START + 2 * WEEK, 0), Err(LotteryError::Invariant));
    assert_eq!(pool, before);
}

#[test]
fn distribution_without_new_revenue_reports_no_new_fees() {
    let (mut pool, _x) = pool_after_first_distribution();
    let before = pool;
    assert_eq!(draw_weekly(&mut pool, START + 2 * WEEK, 210), Err(LotteryError::NoNewFees));
    assert_eq!(pool, before);
    let mut empty = new_pool();
    assert_eq!(draw_weekly(&mut empty, START + WEEK, 0), Err(LotteryError::NoNewFees));
}

#[test]
fn distribution_without_stakers_is_rejected() {
    let mut pool = new_pool();
    let before = pool;
    assert_eq!(draw_weekly(&mut pool, START + WEEK, 300), Err(LotteryError::NoStakers));
    assert_eq!(draw_weekly(&mut pool, START + WEEK, 1), Err(LotteryError::NoStakers));
    assert_eq!(pool, before);
}

#[test]
fn distribution_errors_come_in_order() {
    let mut pool = new_pool();
    pool.vault_accounted = 10;
    // Too early wins over everything else.
    assert_eq!(draw_weekly(&mut pool, START + WEEK - 1, 5), Err(LotteryError::TooEarly));
    assert_eq!(draw_weekly(&mut pool, START + WEEK - 1, 10), Err(LotteryError::TooEarly));
    assert_eq!(draw_weekly(&mut pool, START + WEEK - 1, 11), Err(LotteryError::TooEarly));
    // Then the vault check, then new fees, then stakers.
    assert_eq!(draw_weekly(&mut pool, START + WEEK, 5), Err(LotteryError::Invariant));
    assert_eq!(draw_weekly(&mut pool, START + WEEK, 10), Err(LotteryError::NoNewFees));
    assert_eq!(draw_weekly(&mut pool, START + WEEK, 11), Err(LotteryError::NoStakers));
}

#[test]
fn distribution_is_due_exactly_when_the_interval_has_passed() {
    let mut pool = new_pool();
    let mut x = new_depositor();
    stake(&mut pool, &mut x, 10).unwrap();
    assert_eq!(draw_weekly(&mut pool, START, 100), Err(LotteryError::TooEarly));
    assert_eq!(draw_weekly(&mut pool, START + WEEK - 1, 100), Err(LotteryError::TooEarly));
    assert_eq!(draw_weekly(&mut pool, i64::MIN, 100), Err(LotteryError::TooEarly));
    assert!(draw_weekly(&mut pool, START + WEEK, 100).is_ok());
}

#[test]
fn a_due_time_beyond_the_clock_is_never_reached() {
    let mut pool = new_pool();
    let mut x = new_depositor();
    stake(&mut pool, &mut x, 10).unwrap();
    pool.last_draw_ts = i64::MAX - 5;
    pool.draw_interval = 10;
    let before = pool;
    assert_eq!(draw_weekly(&mut pool, i64::MAX, 100), Err(LotteryError::TooEarly));
    assert_eq!(pool, before);
    pool.draw_interval = 5;
    assert!(draw_weekly(&mut pool, i64::MAX, 100).is_ok());
    assert_eq!(pool.last_draw_ts, i64::MAX);
}

#[test]
fn distribution_of_the_largest_balance_is_exact() {
    let mut pool = new_pool();
    let mut x = new_depositor();
    stake(&mut pool, &mut x, 1).unwrap();
    let receipt = draw_weekly(&mut pool, START + WEEK, u64::MAX).unwrap();
    assert_eq!(receipt, drawn(5_534_023_222_112_865_484, 12_912_720_851_596_686_131));
    assert_eq!(pool.vault_accounted, 12_912_720_851_596_686_131);
    assert_eq!(
        pool.acc_reward_per_share,
        12_912_720_851_596_686_131u128 * ACC_PRECISION
    );
    assert_eq!(claim(&mut pool, &mut x), Ok(claimed(12_912_720_851_596_686_131)));
    assert_eq!(pool.vault_accounted, 0);
}

#[test]
fn totals_clamp_at_the_width_of_a_balance() {
    let mut pool = new_pool();
    let mut x = new_depositor();
    stake(&mut pool, &mut x, u64::MAX - 1).unwrap();
    assert_eq!(
        stake(&mut pool, &mut x, 5),
        Ok(staked(0, 5))
    );
    assert_eq!(pool.total_staked, u64::MAX);
    assert_eq!(x.amount, u64::MAX);
}

#[test]
fn accounted_balance_never_goes_below_zero() {
    let (mut pool, mut x) = pool_after_first_distribution();
    pool.vault_accounted = 100;
    assert_eq!(claim(&mut pool, &mut x), Ok(claimed(210)));
    assert_eq!(pool.vault_accounted, 0);
}

#[test]
fn total_never_goes_below_zero() {
    let mut pool = new_pool();
    let mut x = UserStake { amount: 50, reward_debt: 0 };
    pool.total_staked = 20;
    assert_eq!(
        unstake(&mut pool, &mut x, 30),
        Ok(unstaked(0, 30))
    );
    assert_eq!(pool.total_staked, 0);
    assert_eq!(x.amount, 20);
}

#[test]
fn accumulator_never_decreases() {
    let mut pool = new_pool();
    let mut x = new_depositor();
    let mut y = new_depositor();
    let mut last = pool.acc_reward_per_share;
    let mut now = START;
    let mut vault: u64 = 0;
    for round in 1..40u64 {
        stake(&mut pool, &mut x, round * 3).unwrap();
        assert!(pool.acc_reward_per_share >= last);
        last = pool.acc_reward_per_share;
        if let Some(payout) = stake(&mut pool, &mut y, round).unwrap().payout {
            vault -= payout.amount;
        }
        assert!(pool.acc_reward_per_share >= last);
        last = pool.acc_reward_per_share;
        now += WEEK;
        vault += round * 17;
        if let Some(payout) = draw_weekly(&mut pool, now, vault).unwrap().creator_share {
            vault -= payout.amount;
        }
        assert!(pool.acc_reward_per_share >= last);
        last = pool.acc_reward_per_share;
        if let Ok(paid) = claim(&mut pool, &mut x) {
            vault -= paid.amount;
        }
        assert!(pool.acc_reward_per_share >= last);
        last = pool.acc_reward_per_share;
        if let Some(payout) = unstake(&mut pool, &mut y, 1).unwrap().payout {
            vault -= payout.amount;
        }
        assert!(pool.acc_reward_per_share >= last);
        last = pool.acc_reward_per_share;
    }
}

#[test]
fn a_saturated_accumulator_stays_put() {
    let mut pool = new_pool();
    let mut x = new_depositor();
    stake(&mut pool, &mut x, 1).unwrap();
    pool.acc_reward_per_share = u128::MAX - 1;
    let receipt = draw_weekly(&mut pool, START + WEEK, 100).unwrap();
    assert_eq!(receipt, drawn(30, 70));
    assert_eq!(pool.acc_reward_per_share, u128::MAX);
    assert_eq!(pool.vault_accounted, 70);
}
