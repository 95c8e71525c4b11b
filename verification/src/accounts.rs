//! What each operation is handed besides the record it works on: the
//! identities of the caller and of the accounts named in the call, already
//! authenticated by the ledger.

use vstd::prelude::*;
use crate::identity::Identity;

verus! {

#[derive(Clone, Copy, PartialEq, Eq, Debug)]
pub struct InitHouseVault {
    /// Who sets the vault up and becomes its administrator.
    pub admin: Identity,
    pub bump: u8,
}

#[derive(Clone, Copy, PartialEq, Eq, Debug)]
pub struct SetHouseFee {
    /// Who asks for the change.
    pub admin: Identity,
}

#[derive(Clone, Copy, PartialEq, Eq, Debug)]
pub struct WithdrawHouseFunds {
    /// Who asks for the withdrawal, and receives it.
    pub admin: Identity,
}

#[derive(Clone, Copy, PartialEq, Eq, Debug)]
pub struct CreateGame {
    /// Who creates the match and pays the first bet.
    pub player1: Identity,
    /// The address of the fee configuration the match is created under.
    pub house_vault: Identity,
    pub bump: u8,
}

#[derive(Clone, Copy, PartialEq, Eq, Debug)]
pub struct JoinGame {
    /// Who takes the second seat and pays the second bet.
    pub player2: Identity,
    /// The address of the fee configuration named in the call.
    pub house_vault: Identity,
}

#[derive(Clone, Copy, PartialEq, Eq, Debug)]
pub struct AuthorizeSessionSigner {
    /// Who names a delegate; must be one of the two players in person.
    pub player: Identity,
}

#[derive(Clone, Copy, PartialEq, Eq, Debug)]
pub struct StartRound {
    pub caller: Identity,
}

#[derive(Clone, Copy, PartialEq, Eq, Debug)]
pub struct CommitMove {
    pub player: Identity,
}

#[derive(Clone, Copy, PartialEq, Eq, Debug)]
pub struct RevealMove {
    pub player: Identity,
}

/// Anyone may resolve a round whose commit window has run out.
#[derive(Clone, Copy, PartialEq, Eq, Debug)]
pub struct ResolveCommitTimeout {
    pub caller: Identity,
}

/// Anyone may declare a forfeit.
#[derive(Clone, Copy, PartialEq, Eq, Debug)]
pub struct ForfeitGame {
    pub caller: Identity,
}

/// Anyone may call a match off; the refunds go to the accounts named here,
/// which must be the two players'.
#[derive(Clone, Copy, PartialEq, Eq, Debug)]
pub struct CancelGame {
    pub caller: Identity,
    pub player1: Identity,
    pub player2: Identity,
}

/// Anyone may settle a finished match; the payouts go to the accounts named
/// here, which must be the two players' and the match's fee configuration.
#[derive(Clone, Copy, PartialEq, Eq, Debug)]
pub struct SettleGame {
    pub player1: Identity,
    pub player2: Identity,
    pub house_vault: Identity,
}

/// Anyone may close a match that nobody joined in time; the refund goes to the
/// account named here, which must be the creator's.
#[derive(Clone, Copy, PartialEq, Eq, Debug)]
pub struct CancelGameIfTimedOut {
    pub caller: Identity,
    pub player1: Identity,
}

} // verus!
