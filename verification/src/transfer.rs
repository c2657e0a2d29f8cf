//! What the ledger asks the custody service to do. The ledger never moves
//! value: every operation names the transfers that go with it, and the caller
//! has the custody service carry them out.

use vstd::prelude::*;

verus! {

/// An account that value moves out of or into.
#[derive(Clone, Copy, Debug, PartialEq, Eq, Structural)]
pub enum Party {
    /// The pool's vault that fee revenue arrives in. Claims and the owner's
    /// share are paid out of it.
    RewardVault,
    /// The pool's vault that holds the depositors' principal.
    StakeVault,
    /// The account of the depositor who runs the operation.
    Depositor,
    /// The account of the pool's owner.
    Owner,
}

/// Who signs for the account that a transfer takes value out of.
#[derive(Clone, Copy, Debug, PartialEq, Eq, Structural)]
pub enum Authority {
    /// The holder of the account.
    Holder,
    /// The pool, as the derived authority of one of its vaults: it presents
    /// the vault's label, its own identity and this integrity byte.
    Pool { bump: u8 },
}

/// One movement of `amount` units of the pool's asset, exact and without a
/// fee.
#[derive(Clone, Copy, Debug, PartialEq, Eq, Structural)]
pub struct Transfer {
    pub from: Party,
    pub to: Party,
    pub amount: u64,
    pub authority: Authority,
}

impl Party {
    /// The party is one of the pool's two vaults.
    pub open spec fn is_vault(self) -> bool {
        self == Party::RewardVault || self == Party::StakeVault
    }
}

impl Transfer {
    /// The pool signs exactly for what leaves one of its vaults, and nothing
    /// moves from a vault into a vault.
    pub open spec fn well_formed(self) -> bool {
        &&& self.authority is Pool <==> self.from.is_vault()
        &&& !(self.from.is_vault() && self.to.is_vault())
    }
}

} // verus!
