//! Model of the external ledger's token accounts.
//!
//! Settlement itself is the host ledger's job: it moves balances atomically
//! and all-or-nothing. The engine's handlers keep this model in lockstep with
//! the single move they instruct the ledger to perform, so every balance
//! invariant of the escrow lifecycle is stated and proved over it.

use vstd::prelude::*;

use crate::errors::EscrowError;

verus! {

/// One fungible-asset account on the ledger.
#[derive(Clone, Copy, Debug, PartialEq, Eq, Structural)]
pub struct TokenAccount {
    /// Identifier of the account itself.
    pub id: u64,
    /// The principal that owns the account and may authorize outbound moves.
    pub owner: u64,
    /// The asset the account holds.
    pub mint: u64,
    /// Current balance.
    pub amount: u64,
}

/// Atomically move `amount` from `from` to `to`, authorized by the owner of
/// `from`.
///
/// Mirrors the host ledger's all-or-nothing semantics: if the source balance
/// does not cover the move, nothing changes and the caller is told the
/// holdings are insufficient. Only the owner of the source account may
/// authorize the move, which is how the vault authority remains the sole
/// principal able to drain a vault.
pub fn transfer(from: &mut TokenAccount, to: &mut TokenAccount, authority: u64, amount: u64) -> (r:
    Result<(), EscrowError>)
    requires
        authority == old(from).owner,
        old(from).mint == old(to).mint,
        old(to).amount + amount <= u64::MAX,
    ensures
        old(from).amount >= amount ==> {
            &&& r == Ok::<(), EscrowError>(())
            &&& *final(from) == (TokenAccount {
                amount: (old(from).amount - amount) as u64,
                ..*old(from)
            })
            &&& *final(to) == (TokenAccount { amount: (old(to).amount + amount) as u64, ..*old(to) })
        },
        old(from).amount < amount ==> {
            &&& r == Err::<(), EscrowError>(EscrowError::InsufficientVaultBalance)
            &&& *final(from) == *old(from)
            &&& *final(to) == *old(to)
        },
{
    if from.amount < amount {
        return Err(EscrowError::InsufficientVaultBalance);
    }
    from.amount = from.amount - amount;
    to.amount = to.amount + amount;
    Ok(())
}

} // verus!
