//! A transfer that leaves a fee in the pool's reward vault.

use crate::accrual::{clamp_u64, BPS_DENOMINATOR};
use crate::state::LotteryError;
use vstd::prelude::*;

verus! {

/// The two transfers that a transfer with a fee is made of.
#[derive(Clone, Copy, Debug, PartialEq, Eq, Structural)]
pub struct FeeSplit {
    /// Moved from the sender into the reward vault.
    pub fee: u64,
    /// Moved from the sender to the recipient.
    pub remainder: u64,
}

/// The fee on `amount` at `fee_bps` basis points, rounded down. The product
/// is clamped to the width of a balance before it is divided.
pub open spec fn fee_of(amount: u64, fee_bps: u64) -> int {
    (clamp_u64(amount * fee_bps) as int) / (BPS_DENOMINATOR as int)
}

/// The fee never exceeds the amount it is taken from.
pub proof fn lemma_fee_within_amount(amount: u64, fee_bps: u64)
    requires
        fee_bps <= BPS_DENOMINATOR,
    ensures
        0 <= fee_of(amount, fee_bps) <= amount,
{
    assert(0 <= amount * fee_bps <= amount * 10_000) by (nonlinear_arith)
        requires
            fee_bps <= 10_000,
    ;
}

/// Divides `amount` into a fee of `fee_bps` basis points and the rest.
pub fn transfer_with_fee(amount: u64, fee_bps: u64) -> (result: Result<FeeSplit, LotteryError>)
    ensures
        fee_bps > BPS_DENOMINATOR ==> result == Err::<FeeSplit, LotteryError>(
            LotteryError::BadFee,
        ),
        fee_bps <= BPS_DENOMINATOR && amount == 0 ==> result == Err::<FeeSplit, LotteryError>(
            LotteryError::ZeroAmount,
        ),
        fee_bps <= BPS_DENOMINATOR && amount > 0 ==> result == Ok::<FeeSplit, LotteryError>(
            (FeeSplit {
                fee: fee_of(amount, fee_bps) as u64,
                remainder: (amount - fee_of(amount, fee_bps)) as u64,
            }),
        ),
        result matches Ok(split) ==> split.fee + split.remainder == amount,
{
    if fee_bps > BPS_DENOMINATOR {
        return Err(LotteryError::BadFee);
    }
    if amount == 0 {
        return Err(LotteryError::ZeroAmount);
    }
    proof {
        lemma_fee_within_amount(amount, fee_bps);
    }
    let scaled: u64 = match amount.checked_mul(fee_bps) {
        Some(product) => product,
        None => u64::MAX,
    };
    let fee: u64 = scaled / BPS_DENOMINATOR;
    let remainder: u64 = amount - fee;
    Ok(FeeSplit { fee, remainder })
}

} // verus!
