//! What the pool presents to sign for a transfer out of one of its vaults:
//! a fixed label, the pool's own identity, and the integrity byte that was
//! recorded for that vault when the pool was created.

use crate::transfer::{Authority, Party, Transfer};
use vstd::prelude::*;

verus! {

/// The label of the reward vault's authority: the bytes of `vault`.
pub const VAULT_LABEL: [u8; 5] = [0x76, 0x61, 0x75, 0x6c, 0x74];

/// The label of the stake vault's authority: the bytes of `stake`.
pub const STAKE_LABEL: [u8; 5] = [0x73, 0x74, 0x61, 0x6b, 0x65];

/// The label that the pool signs with for `transfer`, if the pool signs for
/// it at all.
pub open spec fn signer_label(transfer: Transfer) -> Option<Seq<u8>> {
    match (transfer.authority, transfer.from) {
        (Authority::Pool { .. }, Party::RewardVault) => Some(VAULT_LABEL@),
        (Authority::Pool { .. }, Party::StakeVault) => Some(STAKE_LABEL@),
        _ => None,
    }
}

/// The seeds of the reward vault's authority for the pool whose identity is
/// `state_key`.
pub fn vault_seeds<'a>(state_key: &'a [u8], vault_bump: u8) -> (seeds: (
    &'static [u8],
    &'a [u8],
    [u8; 1],
))
    ensures
        seeds.0@ == VAULT_LABEL@,
        seeds.1@ == state_key@,
        seeds.2@ == seq![vault_bump],
{
    let label: &'static [u8; 5] = &VAULT_LABEL;
    (label.as_slice(), state_key, [vault_bump])
}

/// The seeds of the stake vault's authority for the pool whose identity is
/// `state_key`.
pub fn staking_seeds<'a>(state_key: &'a [u8], staking_bump: u8) -> (seeds: (
    &'static [u8],
    &'a [u8],
    [u8; 1],
))
    ensures
        seeds.0@ == STAKE_LABEL@,
        seeds.1@ == state_key@,
        seeds.2@ == seq![staking_bump],
{
    let label: &'static [u8; 5] = &STAKE_LABEL;
    (label.as_slice(), state_key, [staking_bump])
}

/// The seeds that the pool whose identity is `state_key` signs `transfer`
/// with: those of the vault that the transfer takes value out of, with the
/// integrity byte that the transfer carries. `None` where the holder of the
/// account signs.
pub fn signer_seeds<'a>(transfer: &Transfer, state_key: &'a [u8]) -> (seeds: Option<
    (&'static [u8], &'a [u8], [u8; 1]),
>)
    ensures
        seeds is Some <==> signer_label(*transfer) is Some,
        seeds matches Some(s) ==> Some(s.0@) == signer_label(*transfer) && s.1@ == state_key@
            && transfer.authority == (Authority::Pool { bump: s.2@[0] }) && s.2@.len() == 1,
{
    match transfer.authority {
        Authority::Holder => None,
        Authority::Pool { bump } => match transfer.from {
            Party::RewardVault => Some(vault_seeds(state_key, bump)),
            Party::StakeVault => Some(staking_seeds(state_key, bump)),
            _ => None,
        },
    }
}

} // verus!
