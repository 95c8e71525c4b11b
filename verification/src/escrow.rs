//! Transfers between custodial accounts, as values.
//!
//! No operation moves funds itself. Each returns the transfers it calls for,
//! in order, computed from the record it has just validated; the caller hands
//! them to the ledger.

use vstd::prelude::*;

verus! {

/// An account that holds funds, named by its part in a match.
#[derive(Clone, Copy, PartialEq, Eq, Structural, Debug)]
pub enum Custody {
    /// The wallet of the match's creator.
    Player1,
    /// The wallet of the second player.
    Player2,
    /// The vault that holds the pot of one match.
    GameVault,
    /// The vault that collects entry fees and the rake.
    HouseVault,
    /// The administrator's wallet.
    Admin,
}

/// An instruction to move `amount` from one account to another, in full or
/// not at all.
#[derive(Clone, Copy, PartialEq, Eq, Structural, Debug)]
pub struct Transfer {
    pub from: Custody,
    pub to: Custody,
    pub amount: u64,
}

/// The transfers that paying `amount` out of a vault takes: one, or none for
/// an amount of zero.
pub open spec fn vault_transfer(amount: u64, from: Custody, to: Custody) -> Seq<Transfer> {
    if amount == 0 {
        Seq::empty()
    } else {
        seq![Transfer { from, to, amount }]
    }
}

/// Appends to `transfers` a payment of `amount` out of a vault that the
/// protocol controls. Nothing is appended for an amount of zero.
pub fn transfer_with_signer(amount: u64, from: Custody, to: Custody, transfers: &mut Vec<Transfer>)
    ensures
        final(transfers)@ == old(transfers)@ + vault_transfer(amount, from, to),
{
    if amount == 0 {
        return ;
    }
    transfers.push(Transfer { from, to, amount });
}

} // verus!
