//! The books of a whole pool: its ledger, the ledgers of all its depositors,
//! and the balances that the custody service actually holds in the two
//! vaults. Nothing here is executable. The module states what the operations
//! of [`crate::ledger`] keep true of the books, whatever the order in which
//! depositors, distributors and revenue arrive.
//!
//! The custody service holds balances of eight bytes. It carries out a
//! transfer only if the source holds the amount and the destination has room
//! for it; otherwise the operation that asked for it is discarded whole.

use crate::accrual::{
    accrued, accrued_since, reward_cut, reward_per_share, ACC_PRECISION, OPERATOR_BPS,
};
use crate::ledger::{
    claim_step, draw_step, pending_of, stake_step, unstake_step, DrawReceipt,
};
use crate::state::{LotteryError, PoolState, UserStake};
use crate::transfer::{Party, Transfer};
use anchor_lang::prelude::Pubkey;
use vstd::arithmetic::div_mod::lemma_fundamental_div_mod;
use vstd::prelude::*;

verus! {

/// A pool with all its depositors and both vaults.
pub struct Books {
    pub pool: PoolState,
    /// One ledger per depositor; a depositor is known by the index.
    pub depositors: Seq<UserStake>,
    /// What the reward vault holds.
    pub reward_vault: u64,
    /// What the stake vault holds.
    pub stake_vault: u64,
}

/// Something that happens to the books.
pub enum Event {
    /// A new depositor gets an empty ledger.
    Join,
    /// Depositor `who` deposits `amount`.
    Deposit { who: int, amount: u64 },
    /// Depositor `who` withdraws `amount`.
    Withdraw { who: int, amount: u64 },
    /// Depositor `who` claims what is pending.
    Claim { who: int },
    /// Someone asks for a distribution at time `now`.
    Distribute { now: i64 },
    /// Fee revenue of `amount` arrives in the reward vault.
    Revenue { amount: u64 },
}

/// The stake of all depositors together.
pub open spec fn total_amount(depositors: Seq<UserStake>) -> int
    decreases depositors.len(),
{
    if depositors.len() == 0 {
        0
    } else {
        total_amount(depositors.drop_last()) + depositors.last().amount
    }
}

/// The ledger never accounts for more reward than the reward vault holds, and
/// the pool's total is both what the stake vault holds and what the
/// depositors' ledgers add up to.
pub open spec fn balanced(books: Books) -> bool {
    &&& books.pool.vault_accounted <= books.reward_vault
    &&& books.pool.total_staked == books.stake_vault
    &&& books.pool.total_staked == total_amount(books.depositors)
}

/// What has accrued to all depositors together since each was last settled,
/// at the accumulator `acc_reward_per_share`, before it is scaled down.
pub open spec fn total_accrued(acc_reward_per_share: u128, depositors: Seq<UserStake>) -> int
    decreases depositors.len(),
{
    if depositors.len() == 0 {
        0
    } else {
        total_accrued(acc_reward_per_share, depositors.drop_last()) + accrued_since(
            depositors.last().amount,
            acc_reward_per_share,
            depositors.last().reward_debt,
        )
    }
}

/// What the ledger has accounted for covers what has accrued to all
/// depositors together.
pub open spec fn solvent(books: Books) -> bool {
    total_accrued(books.pool.acc_reward_per_share, books.depositors)
        <= books.pool.vault_accounted * ACC_PRECISION
}

/// The books are balanced and solvent.
pub open spec fn sound(books: Books) -> bool {
    balanced(books) && solvent(books)
}

/// The books after `amount` left `party`, or `None` if a vault does not hold
/// that much. Accounts that are not the pool's are outside the books.
pub open spec fn debit(books: Books, party: Party, amount: u64) -> Option<Books> {
    match party {
        Party::RewardVault => if amount <= books.reward_vault {
            Some(Books { reward_vault: (books.reward_vault - amount) as u64, ..books })
        } else {
            None
        },
        Party::StakeVault => if amount <= books.stake_vault {
            Some(Books { stake_vault: (books.stake_vault - amount) as u64, ..books })
        } else {
            None
        },
        _ => Some(books),
    }
}

/// The books after `amount` arrived at `party`, or `None` if a vault has no
/// room for that much.
pub open spec fn credit(books: Books, party: Party, amount: u64) -> Option<Books> {
    match party {
        Party::RewardVault => if books.reward_vault + amount <= u64::MAX {
            Some(Books { reward_vault: (books.reward_vault + amount) as u64, ..books })
        } else {
            None
        },
        Party::StakeVault => if books.stake_vault + amount <= u64::MAX {
            Some(Books { stake_vault: (books.stake_vault + amount) as u64, ..books })
        } else {
            None
        },
        _ => Some(books),
    }
}

/// The books after the custody service carried out `transfer`, or `None` if
/// it cannot.
pub open spec fn carry_out(books: Books, transfer: Transfer) -> Option<Books> {
    match debit(books, transfer.from, transfer.amount) {
        Some(debited) => credit(debited, transfer.to, transfer.amount),
        None => None,
    }
}

/// The books after the custody service carried out `transfer`, if there is
/// one to carry out.
pub open spec fn carry_out_if_any(books: Books, transfer: Option<Transfer>) -> Option<Books> {
    match transfer {
        Some(transfer) => carry_out(books, transfer),
        None => Some(books),
    }
}

/// The books after the custody service carried out `first`, if there is one,
/// and then `second`; the books as they were before the operation, `before`,
/// if it cannot carry out both.
pub open spec fn carry_out_both(
    before: Books,
    books: Books,
    first: Option<Transfer>,
    second: Transfer,
) -> Books {
    match carry_out_if_any(books, first) {
        Some(paid) => match carry_out(paid, second) {
            Some(moved) => moved,
            None => before,
        },
        None => before,
    }
}

/// The books after `event`. An operation that the ledger rejects, that names
/// no depositor, or whose transfers the custody service cannot carry out,
/// leaves the books as they were.
pub open spec fn apply(books: Books, event: Event) -> Books {
    match event {
        Event::Join => Books {
            depositors: books.depositors.push(UserStake { amount: 0, reward_debt: 0 }),
            ..books
        },
        Event::Deposit { who, amount } => {
            if 0 <= who < books.depositors.len() {
                match stake_step(books.pool, books.depositors[who], amount) {
                    Ok(next) => carry_out_both(
                        books,
                        Books {
                            pool: next.pool,
                            depositors: books.depositors.update(who, next.user),
                            ..books
                        },
                        next.receipt.payout,
                        next.receipt.deposit,
                    ),
                    Err(_) => books,
                }
            } else {
                books
            }
        },
        Event::Withdraw { who, amount } => {
            if 0 <= who < books.depositors.len() {
                match unstake_step(books.pool, books.depositors[who], amount) {
                    Ok(next) => carry_out_both(
                        books,
                        Books {
                            pool: next.pool,
                            depositors: books.depositors.update(who, next.user),
                            ..books
                        },
                        next.receipt.payout,
                        next.receipt.refund,
                    ),
                    Err(_) => books,
                }
            } else {
                books
            }
        },
        Event::Claim { who } => {
            if 0 <= who < books.depositors.len() {
                match claim_step(books.pool, books.depositors[who]) {
                    Ok(next) => match carry_out(
                        Books {
                            pool: next.pool,
                            depositors: books.depositors.update(who, next.user),
                            ..books
                        },
                        next.receipt,
                    ) {
                        Some(paid) => paid,
                        None => books,
                    },
                    Err(_) => books,
                }
            } else {
                books
            }
        },
        Event::Distribute { now } => {
            match draw_step(books.pool, now, books.reward_vault) {
                Ok(next) => match carry_out_if_any(
                    Books { pool: next.0, ..books },
                    next.1.creator_share,
                ) {
                    Some(paid) => paid,
                    None => books,
                },
                Err(_) => books,
            }
        },
        Event::Revenue { amount } => {
            match credit(books, Party::RewardVault, amount) {
                Some(funded) => funded,
                None => books,
            }
        },
    }
}

/// The books after all of `events`, in order.
pub open spec fn run(books: Books, events: Seq<Event>) -> Books
    decreases events.len(),
{
    if events.len() == 0 {
        books
    } else {
        apply(run(books, events.drop_last()), events.last())
    }
}

/// Replacing one depositor's ledger changes the total by the difference of
/// the two stakes.
pub proof fn lemma_total_amount_update(depositors: Seq<UserStake>, who: int, user: UserStake)
    requires
        0 <= who < depositors.len(),
    ensures
        total_amount(depositors.update(who, user)) == total_amount(depositors)
            - depositors[who].amount + user.amount,
    decreases depositors.len(),
{
    let updated = depositors.update(who, user);
    if who == depositors.len() - 1 {
        assert(updated.drop_last() =~= depositors.drop_last());
    } else {
        lemma_total_amount_update(depositors.drop_last(), who, user);
        assert(updated.drop_last() =~= depositors.drop_last().update(who, user));
    }
}

/// No depositor holds more than all of them together.
pub proof fn lemma_stake_within_total(depositors: Seq<UserStake>, who: int)
    requires
        0 <= who < depositors.len(),
    ensures
        0 <= depositors[who].amount <= total_amount(depositors),
        0 <= total_amount(depositors.drop_last()),
    decreases depositors.len(),
{
    lemma_total_amount_nonnegative(depositors.drop_last());
    if who < depositors.len() - 1 {
        lemma_stake_within_total(depositors.drop_last(), who);
    }
}

/// The total stake is never negative.
pub proof fn lemma_total_amount_nonnegative(depositors: Seq<UserStake>)
    ensures
        0 <= total_amount(depositors),
    decreases depositors.len(),
{
    if depositors.len() > 0 {
        lemma_total_amount_nonnegative(depositors.drop_last());
    }
}

/// Conservation, one step: whatever happens to balanced books, they stay
/// balanced.
pub proof fn lemma_apply_keeps_balance(books: Books, event: Event)
    requires
        balanced(books),
    ensures
        balanced(apply(books, event)),
{
    match event {
        Event::Join => {
            let joined = books.depositors.push(UserStake { amount: 0, reward_debt: 0 });
            assert(joined.drop_last() =~= books.depositors);
        },
        Event::Deposit { who, amount } => {
            if 0 <= who < books.depositors.len() {
                lemma_stake_within_total(books.depositors, who);
                if let Ok(next) = stake_step(books.pool, books.depositors[who], amount) {
                    lemma_total_amount_update(books.depositors, who, next.user);
                }
            }
        },
        Event::Withdraw { who, amount } => {
            if 0 <= who < books.depositors.len() {
                if let Ok(next) = unstake_step(books.pool, books.depositors[who], amount) {
                    lemma_total_amount_update(books.depositors, who, next.user);
                }
            }
        },
        Event::Claim { who } => {
            if 0 <= who < books.depositors.len() {
                if let Ok(next) = claim_step(books.pool, books.depositors[who]) {
                    lemma_total_amount_update(books.depositors, who, next.user);
                }
            }
        },
        Event::Distribute { .. } => {},
        Event::Revenue { .. } => {},
    }
}

/// Conservation: from balanced books, the books are balanced after every
/// event of any sequence of events.
pub proof fn lemma_balance_is_conserved(books: Books, events: Seq<Event>)
    requires
        balanced(books),
    ensures
        forall|n: int| 0 <= n <= events.len() ==> balanced(#[trigger] run(books, events.take(n))),
{
    assert forall|n: int| 0 <= n <= events.len() implies balanced(
        #[trigger] run(books, events.take(n)),
    ) by {
        lemma_run_keeps_balance(books, events.take(n));
    }
}

/// From balanced books, the books are balanced after all of `events`.
pub proof fn lemma_run_keeps_balance(books: Books, events: Seq<Event>)
    requires
        balanced(books),
    ensures
        balanced(run(books, events)),
    decreases events.len(),
{
    if events.len() > 0 {
        lemma_run_keeps_balance(books, events.drop_last());
        lemma_apply_keeps_balance(run(books, events.drop_last()), events.last());
    }
}

/// No event lowers the pool's accumulator.
pub proof fn lemma_apply_never_lowers_accrual(books: Books, event: Event)
    ensures
        apply(books, event).pool.acc_reward_per_share >= books.pool.acc_reward_per_share,
{
}

/// Monotonic accrual: along any sequence of events, the accumulator after a
/// longer prefix is at least the accumulator after a shorter one.
pub proof fn lemma_accrual_is_monotonic(books: Books, events: Seq<Event>, n: int, m: int)
    requires
        0 <= n <= m <= events.len(),
    ensures
        run(books, events.take(n)).pool.acc_reward_per_share <= run(
            books,
            events.take(m),
        ).pool.acc_reward_per_share,
    decreases m - n,
{
    if n < m {
        lemma_accrual_is_monotonic(books, events, n, m - 1);
        assert(events.take(m).drop_last() =~= events.take(m - 1));
    }
}

/// Replacing one depositor's ledger changes what has accrued to all by the
/// difference of what has accrued to the two.
pub proof fn lemma_total_accrued_update(
    acc_reward_per_share: u128,
    depositors: Seq<UserStake>,
    who: int,
    user: UserStake,
)
    requires
        0 <= who < depositors.len(),
    ensures
        total_accrued(acc_reward_per_share, depositors.update(who, user)) == total_accrued(
            acc_reward_per_share,
            depositors,
        ) - accrued_since(
            depositors[who].amount,
            acc_reward_per_share,
            depositors[who].reward_debt,
        ) + accrued_since(user.amount, acc_reward_per_share, user.reward_debt),
    decreases depositors.len(),
{
    let updated = depositors.update(who, user);
    if who == depositors.len() - 1 {
        assert(updated.drop_last() =~= depositors.drop_last());
    } else {
        lemma_total_accrued_update(acc_reward_per_share, depositors.drop_last(), who, user);
        assert(updated.drop_last() =~= depositors.drop_last().update(who, user));
    }
}

/// What has accrued to one depositor is part of what has accrued to all.
pub proof fn lemma_accrued_within_total(
    acc_reward_per_share: u128,
    depositors: Seq<UserStake>,
    who: int,
)
    requires
        0 <= who < depositors.len(),
    ensures
        accrued_since(depositors[who].amount, acc_reward_per_share, depositors[who].reward_debt)
            <= total_accrued(acc_reward_per_share, depositors),
    decreases depositors.len(),
{
    lemma_total_accrued_nonnegative(acc_reward_per_share, depositors.drop_last());
    if who < depositors.len() - 1 {
        lemma_accrued_within_total(acc_reward_per_share, depositors.drop_last(), who);
    }
}

/// What has accrued to all depositors is never negative.
pub proof fn lemma_total_accrued_nonnegative(acc_reward_per_share: u128, depositors: Seq<UserStake>)
    ensures
        0 <= total_accrued(acc_reward_per_share, depositors),
    decreases depositors.len(),
{
    if depositors.len() > 0 {
        lemma_total_accrued_nonnegative(acc_reward_per_share, depositors.drop_last());
    }
}

/// Raising the accumulator from `before` to `after` lets at most the
/// difference accrue to every staked unit.
pub proof fn lemma_accrued_since_grows_by_stake(
    amount: u64,
    reward_debt: u128,
    before: u128,
    after: u128,
)
    requires
        before <= after,
    ensures
        accrued_since(amount, after, reward_debt) <= accrued_since(amount, before, reward_debt)
            + amount * (after - before),
{
    assert(amount * after == amount * before + amount * (after - before)) by (nonlinear_arith);
}

/// Raising the accumulator from `before` to `after` lets at most the
/// difference times the total stake accrue to all depositors together.
pub proof fn lemma_total_accrued_grows_by_total(
    depositors: Seq<UserStake>,
    before: u128,
    after: u128,
)
    requires
        before <= after,
    ensures
        total_accrued(after, depositors) <= total_accrued(before, depositors) + total_amount(
            depositors,
        ) * (after - before),
    decreases depositors.len(),
{
    if depositors.len() > 0 {
        let rest = depositors.drop_last();
        let last = depositors.last();
        lemma_total_accrued_grows_by_total(rest, before, after);
        lemma_accrued_since_grows_by_stake(last.amount, last.reward_debt, before, after);
        assert((total_amount(rest) + last.amount) * (after - before) == total_amount(rest) * (
        after - before) + last.amount * (after - before)) by (nonlinear_arith);
    }
}

/// A reward that is spread over the staked units hands out no more than the
/// reward.
pub proof fn lemma_spread_within_reward(acc_reward_per_share: u128, reward: u64, total_staked: u64)
    requires
        total_staked > 0,
    ensures
        acc_reward_per_share <= accrued(acc_reward_per_share, reward, total_staked),
        total_staked * (accrued(acc_reward_per_share, reward, total_staked)
            - acc_reward_per_share) <= reward * ACC_PRECISION,
{
    let scaled = reward * ACC_PRECISION;
    let increment = reward_per_share(reward, total_staked);
    let raise = accrued(acc_reward_per_share, reward, total_staked) - acc_reward_per_share;
    lemma_fundamental_div_mod(scaled, total_staked as int);
    assert(total_staked * raise <= total_staked * increment) by (nonlinear_arith)
        requires
            0 <= raise <= increment,
            0 < total_staked,
    ;
}

/// Solvency, one step: whatever happens to sound books, what the ledger has
/// accounted for still covers what has accrued to the depositors.
pub proof fn lemma_apply_keeps_solvency(books: Books, event: Event)
    requires
        sound(books),
    ensures
        solvent(apply(books, event)),
{
    let acc = books.pool.acc_reward_per_share;
    match event {
        Event::Join => {
            let joined = books.depositors.push(UserStake { amount: 0, reward_debt: 0 });
            assert(joined.drop_last() =~= books.depositors);
        },
        Event::Deposit { who, amount } => {
            if 0 <= who < books.depositors.len() {
                if let Ok(next) = stake_step(books.pool, books.depositors[who], amount) {
                    lemma_total_accrued_update(acc, books.depositors, who, next.user);
                }
            }
        },
        Event::Withdraw { who, amount } => {
            if 0 <= who < books.depositors.len() {
                if let Ok(next) = unstake_step(books.pool, books.depositors[who], amount) {
                    lemma_total_accrued_update(acc, books.depositors, who, next.user);
                }
            }
        },
        Event::Claim { who } => {
            if 0 <= who < books.depositors.len() {
                if let Ok(next) = claim_step(books.pool, books.depositors[who]) {
                    lemma_total_accrued_update(acc, books.depositors, who, next.user);
                }
            }
        },
        Event::Distribute { now } => {
            if let Ok(next) = draw_step(books.pool, now, books.reward_vault) {
                let delta = (books.reward_vault - books.pool.vault_accounted) as u64;
                let reward = reward_cut(delta, OPERATOR_BPS) as u64;
                if reward > 0 {
                    lemma_spread_within_reward(acc, reward, books.pool.total_staked);
                    lemma_total_accrued_grows_by_total(
                        books.depositors,
                        acc,
                        next.0.acc_reward_per_share,
                    );
                }
            }
        },
        Event::Revenue { amount } => {},
    }
}

/// Conservation and solvency: from sound books, the books are sound after
/// every event of any sequence of events.
pub proof fn lemma_soundness_is_conserved(books: Books, events: Seq<Event>)
    requires
        sound(books),
    ensures
        forall|n: int| 0 <= n <= events.len() ==> sound(#[trigger] run(books, events.take(n))),
{
    assert forall|n: int| 0 <= n <= events.len() implies sound(
        #[trigger] run(books, events.take(n)),
    ) by {
        lemma_run_keeps_soundness(books, events.take(n));
    }
}

/// From sound books, the books are sound after all of `events`.
pub proof fn lemma_run_keeps_soundness(books: Books, events: Seq<Event>)
    requires
        sound(books),
    ensures
        sound(run(books, events)),
    decreases events.len(),
{
    if events.len() > 0 {
        let before = run(books, events.drop_last());
        lemma_run_keeps_soundness(books, events.drop_last());
        lemma_apply_keeps_balance(before, events.last());
        lemma_apply_keeps_solvency(before, events.last());
    }
}

/// In sound books the ledger has accounted for what any depositor is owed,
/// and the reward vault holds it, so taking a payout off what is accounted
/// for never clamps.
pub proof fn lemma_pending_is_covered(books: Books, who: int)
    requires
        sound(books),
        0 <= who < books.depositors.len(),
    ensures
        pending_of(books.pool, books.depositors[who]) <= books.pool.vault_accounted,
        pending_of(books.pool, books.depositors[who]) <= books.reward_vault,
{
    lemma_accrued_within_total(books.pool.acc_reward_per_share, books.depositors, who);
}

/// In sound books no operation fails for want of funds in a vault: the
/// custody service can carry out every payment out of a vault that an
/// accepted operation asks for. Only a deposit can still fail, where the
/// depositor lacks the principal or the stake vault the room for it.
pub proof fn lemma_vaults_can_pay(books: Books, who: int, amount: u64, now: i64)
    requires
        sound(books),
        0 <= who < books.depositors.len(),
    ensures
        claim_step(books.pool, books.depositors[who]) matches Ok(next) ==> carry_out(
            books,
            next.receipt,
        ) is Some,
        stake_step(books.pool, books.depositors[who], amount) matches Ok(next)
            ==> carry_out_if_any(books, next.receipt.payout) is Some,
        unstake_step(books.pool, books.depositors[who], amount) matches Ok(next) ==> (
        carry_out_if_any(books, next.receipt.payout) matches Some(paid) && carry_out(
            paid,
            next.receipt.refund,
        ) is Some),
        draw_step(books.pool, now, books.reward_vault) matches Ok(next) ==> carry_out_if_any(
            books,
            next.1.creator_share,
        ) is Some,
{
    lemma_pending_is_covered(books, who);
    lemma_stake_within_total(books.depositors, who);
}

/// The books of a pool that was just created at time `now`, with no
/// depositor yet, an empty stake vault, and `reward_vault` units that may
/// already have arrived in the reward vault.
pub open spec fn opening(
    owner: Pubkey,
    mint: Pubkey,
    vault_bump: u8,
    staking_bump: u8,
    now: i64,
    draw_interval: i64,
    reward_vault: u64,
) -> Books {
    Books {
        pool: PoolState::fresh(owner, mint, vault_bump, staking_bump, now, draw_interval),
        depositors: Seq::empty(),
        reward_vault,
        stake_vault: 0,
    }
}

/// Conservation for the life of a pool: from the day it is created, after
/// every event of any sequence of events, the ledger accounts for no more
/// than the reward vault holds, the pool's total is what the stake vault
/// holds and what the depositors' stakes add up to, and what is accounted
/// for covers what the depositors are owed.
pub proof fn lemma_pool_is_sound_for_life(
    owner: Pubkey,
    mint: Pubkey,
    vault_bump: u8,
    staking_bump: u8,
    now: i64,
    draw_interval: i64,
    reward_vault: u64,
    events: Seq<Event>,
)
    ensures
        forall|n: int|
            0 <= n <= events.len() ==> sound(
                #[trigger] run(
                    opening(
                        owner,
                        mint,
                        vault_bump,
                        staking_bump,
                        now,
                        draw_interval,
                        reward_vault,
                    ),
                    events.take(n),
                ),
            ),
{
    lemma_soundness_is_conserved(
        opening(owner, mint, vault_bump, staking_bump, now, draw_interval, reward_vault),
        events,
    );
}

/// In balanced books the reward vault never holds less than the ledger has
/// accounted for, so no distribution is rejected for that.
pub proof fn lemma_draw_finds_vault_intact(books: Books, now: i64)
    requires
        balanced(books),
    ensures
        draw_step(books.pool, now, books.reward_vault) != Err::<
            (PoolState, DrawReceipt),
            LotteryError,
        >(LotteryError::Invariant),
{
}

/// The depositor that `event` is an operation of, if it is one.
pub open spec fn actor(event: Event) -> Option<int> {
    match event {
        Event::Deposit { who, .. } => Some(who),
        Event::Withdraw { who, .. } => Some(who),
        Event::Claim { who } => Some(who),
        _ => None,
    }
}

/// A depositor's ledger changes only through that depositor's own
/// operations: no other depositor, no distribution and no arrival of revenue
/// touches it, and no ledger ever disappears.
pub proof fn lemma_ledgers_are_private(books: Books, event: Event, who: int)
    requires
        0 <= who < books.depositors.len(),
        actor(event) != Some(who),
    ensures
        books.depositors.len() <= apply(books, event).depositors.len(),
        apply(books, event).depositors[who] == books.depositors[who],
{
}

/// What is fixed when a pool is created stays fixed: its owner, its asset,
/// the integrity bytes of both vaults and the interval between
/// distributions.
pub proof fn lemma_pool_identity_is_fixed(books: Books, event: Event)
    ensures
        apply(books, event).pool.owner == books.pool.owner,
        apply(books, event).pool.mint == books.pool.mint,
        apply(books, event).pool.vault_bump == books.pool.vault_bump,
        apply(books, event).pool.staking_bump == books.pool.staking_bump,
        apply(books, event).pool.draw_interval == books.pool.draw_interval,
        books.pool.well_formed() ==> apply(books, event).pool.well_formed(),
{
}

} // verus!
