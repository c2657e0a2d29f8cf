use anchor_lang::prelude::Pubkey;
use sol_lottery::{initialize, LotteryError, PoolState, UserStake};

const WEEK: i64 = 604_800;

#[test]
fn initialize_creates_an_empty_pool() {
    let owner = Pubkey::new_from_array([1u8; 32]);
    let mint = Pubkey::new_from_array([2u8; 32]);
    let pool = initialize(owner, mint, 254, 253, 1_700_000_000, WEEK).unwrap();
    assert_eq!(
        pool,
        PoolState {
            owner,
            mint,
            vault_bump: 254,
            staking_bump: 253,
            total_staked: 0,
            acc_reward_per_share: 0,
            last_draw_ts: 1_700_000_000,
            draw_interval: WEEK,
            vault_accounted: 0,
        }
    );
}

#[test]
fn initialize_rejects_an_interval_that_is_not_positive() {
    let owner = Pubkey::new_from_array([1u8; 32]);
    let mint = Pubkey::new_from_array([2u8; 32]);
    assert_eq!(initialize(owner, mint, 1, 2, 0, 0), Err(LotteryError::BadInterval));
    assert_eq!(initialize(owner, mint, 1, 2, 0, -1), Err(LotteryError::BadInterval));
    assert_eq!(initialize(owner, mint, 1, 2, 0, i64::MIN), Err(LotteryError::BadInterval));
    assert!(initialize(owner, mint, 1, 2, 0, 1).is_ok());
    assert!(initialize(owner, mint, 1, 2, i64::MIN, i64::MAX).is_ok());
}

#[test]
fn records_have_their_stored_widths() {
    assert_eq!(PoolState::SIZE, 114);
    assert_eq!(UserStake::SIZE, 24);
}
