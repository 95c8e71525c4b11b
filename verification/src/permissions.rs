//! Who may do what, and when.
//!
//! Whether an operation on a match may go ahead depends first on two things:
//! the side the caller acts for and the status of the match. That part of
//! every operation's checks is this one table.

use vstd::prelude::*;
use crate::state::CallerRole;
use crate::state::GameStatus;
use crate::state::RpsError;

verus! {

/// The operations on an existing match.
#[derive(Clone, Copy, PartialEq, Eq, Structural, Debug)]
pub enum Operation {
    JoinGame,
    AuthorizeSessionSigner,
    StartRound,
    CommitMove,
    RevealMove,
    ResolveCommitTimeout,
    ForfeitGame,
    CancelGame,
    SettleGame,
    CancelGameIfTimedOut,
}

impl Operation {
    /// The operation is reserved to the parties of the match. The others are
    /// open to anyone.
    pub open spec fn needs_party(self) -> bool {
        self == Operation::AuthorizeSessionSigner || self == Operation::StartRound || self
            == Operation::CommitMove || self == Operation::RevealMove
    }

    /// The operation may go ahead on a match of this status.
    pub open spec fn open_in(self, status: GameStatus) -> bool {
        match self {
            Operation::JoinGame | Operation::CancelGameIfTimedOut => status
                == GameStatus::WaitingForPlayer2,
            Operation::AuthorizeSessionSigner => status == GameStatus::WaitingForPlayer2 || status
                == GameStatus::Active,
            Operation::StartRound
            | Operation::CommitMove
            | Operation::RevealMove
            | Operation::ResolveCommitTimeout
            | Operation::ForfeitGame
            | Operation::CancelGame => status == GameStatus::Active,
            Operation::SettleGame => status == GameStatus::Finished,
        }
    }

    /// How the operation is refused on a match of a status it is not open in.
    pub open spec fn closed_error(self) -> RpsError {
        match self {
            Operation::JoinGame => RpsError::GameNotJoinable,
            Operation::AuthorizeSessionSigner => RpsError::InvalidGameState,
            Operation::StartRound
            | Operation::CommitMove
            | Operation::RevealMove
            | Operation::ResolveCommitTimeout
            | Operation::ForfeitGame
            | Operation::CancelGame => RpsError::GameNotActive,
            Operation::SettleGame => RpsError::GameNotFinished,
            Operation::CancelGameIfTimedOut => RpsError::GameNotCancellable,
        }
    }
}

/// A caller in `role` may attempt `operation` on a match of `status`.
pub open spec fn permitted(operation: Operation, role: CallerRole, status: GameStatus) -> bool {
    (operation.needs_party() ==> role != CallerRole::Neither) && operation.open_in(status)
}

/// Why a caller in `role` may not attempt `operation` on a match of `status`,
/// if that is so. The caller's standing is looked at before the status.
pub open spec fn permission_error(operation: Operation, role: CallerRole, status: GameStatus) -> Option<
    RpsError,
> {
    if operation.needs_party() && role == CallerRole::Neither {
        Some(RpsError::NotAPlayer)
    } else if !operation.open_in(status) {
        Some(operation.closed_error())
    } else {
        None
    }
}

/// Looks an attempt up in the table: passes if a caller in `role` may attempt
/// `operation` on a match of `status`, and says why not otherwise.
pub fn check_permission(operation: Operation, role: CallerRole, status: GameStatus) -> (result: Result<
    (),
    RpsError,
>)
    ensures
        result is Ok <==> permitted(operation, role, status),
        match result {
            Ok(_) => permission_error(operation, role, status) is None,
            Err(e) => permission_error(operation, role, status) == Some(e),
        },
{
    let needs_party = match operation {
        Operation::AuthorizeSessionSigner
        | Operation::StartRound
        | Operation::CommitMove
        | Operation::RevealMove => true,
        _ => false,
    };
    if needs_party && role == CallerRole::Neither {
        return Err(RpsError::NotAPlayer);
    }
    match operation {
        Operation::JoinGame => {
            if status != GameStatus::WaitingForPlayer2 {
                return Err(RpsError::GameNotJoinable);
            }
        },
        Operation::CancelGameIfTimedOut => {
            if status != GameStatus::WaitingForPlayer2 {
                return Err(RpsError::GameNotCancellable);
            }
        },
        Operation::AuthorizeSessionSigner => {
            if !(status == GameStatus::WaitingForPlayer2 || status == GameStatus::Active) {
                return Err(RpsError::InvalidGameState);
            }
        },
        Operation::SettleGame => {
            if status != GameStatus::Finished {
                return Err(RpsError::GameNotFinished);
            }
        },
        _ => {
            if status != GameStatus::Active {
                return Err(RpsError::GameNotActive);
            }
        },
    }
    Ok(())
}

} // verus!
