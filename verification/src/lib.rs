//! A shared-custody staking ledger.
//!
//! Depositors lock a balance into a common pool. Fee revenue that arrives in
//! the pool's reward vault is divided, once per interval, between the pool's
//! owner and the depositors in proportion to their stake. A depositor can
//! deposit, withdraw and claim at any time and in any order: the pool keeps
//! one running total of reward per staked unit, each depositor a checkpoint
//! against it, and settling one depositor never touches another.
//!
//! The library keeps the books and decides; it moves no value. Every
//! operation returns what the custody service is to transfer.

pub mod accrual;
pub mod books;
pub mod fairness;
pub mod fee;
pub mod ledger;
pub mod seeds;
pub mod state;
pub mod transfer;

pub use crate::fee::transfer_with_fee;
pub use crate::ledger::{claim, draw_weekly, stake, unstake};
pub use crate::state::{initialize, LotteryError, PoolState, UserStake};
