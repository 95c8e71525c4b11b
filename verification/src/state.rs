//! The match record, the fee configuration, and what must hold of them.

use vstd::prelude::*;
use crate::identity::Identity;

verus! {

/// The fee rate that a freshly initialised house vault starts with: 1%.
pub const DEFAULT_HOUSE_FEE_BPS: u16 = 100;

/// The highest fee rate the administrator may set: 10%.
pub const MAX_HOUSE_FEE_BPS: u16 = 1_000;

/// One basis point is 1/10000.
pub const BPS_DENOMINATOR: u64 = 10_000;

/// A match has at most this many rounds.
pub const MAX_ROUNDS: usize = 5;

/// A match ends as soon as one player has this many rounds.
pub const WINS_TO_FINISH: u8 = 3;

/// The smallest bet a match may be created with: a tenth of a unit.
pub const MIN_BET_LAMPORTS: u64 = 100_000_000;

/// How long a match waits for a second player before anyone may close it.
pub const TIMEOUT_SLOTS: u64 = 450;

/// The assumed length of one clock tick, used to turn milliseconds into ticks.
pub const ESTIMATED_SLOT_MS: u64 = 400;

/// The length of a round's commit window in milliseconds.
pub const COMMIT_PHASE_MS: u64 = 30_000;

/// The length of a round's commit window in ticks, rounded up.
pub const COMMIT_PHASE_SLOTS: u64 = (COMMIT_PHASE_MS + ESTIMATED_SLOT_MS - 1) / ESTIMATED_SLOT_MS;

/// Where a match stands in its life.
#[derive(Clone, Copy, PartialEq, Eq, Structural, Debug)]
pub enum GameStatus {
    WaitingForPlayer2,
    Active,
    Finished,
    Cancelled,
    /// Payouts are done; the match cannot be settled again.
    Settled,
}

/// Why an operation was refused. A refused operation changes nothing.
#[derive(Clone, Copy, PartialEq, Eq, Structural, Debug)]
pub enum RpsError {
    InvalidBetAmount,
    InvalidEntryFee,
    GameNotJoinable,
    AlreadyHasPlayer2,
    GameNotActive,
    GameNotFinished,
    InvalidRound,
    InvalidMove,
    NotAPlayer,
    AlreadyCommitted,
    NotCommittedYet,
    AlreadyRevealed,
    CommitmentMismatch,
    MathOverflow,
    InvalidGameState,
    InvalidHouseWallet,
    InvalidPlayerAccount,
    Unauthorized,
    GameNotCancellable,
    NotTimedOut,
    InvalidHouseFee,
    BetTooLow,
    CommitPhaseExpired,
    BothMustCommitFirst,
    RoundAlreadyResolved,
    CommitWindowNotStarted,
    CommitPhaseNotExpired,
    BothCommittedNoTimeout,
    CommitWindowAlreadyStarted,
}

/// The global fee configuration.
#[derive(Clone, Copy, PartialEq, Eq, Debug)]
pub struct HouseVault {
    pub bump: u8,
    /// Who may withdraw house funds and change the fee.
    pub admin: Identity,
    /// The fee rate that newly created matches take a snapshot of.
    pub house_fee_bps: u16,
}

impl HouseVault {
    /// The bytes a stored configuration takes: an 8-byte tag, the bump, the
    /// administrator's key, the fee rate.
    pub const SPACE: usize = 8 + 1 + 32 + 2;

    /// The fee rate is within the maximum.
    pub open spec fn wf(&self) -> bool {
        self.house_fee_bps <= MAX_HOUSE_FEE_BPS
    }
}

/// Which side of a match a caller acts for.
#[derive(Clone, Copy, PartialEq, Eq, Structural, Debug)]
pub enum CallerRole {
    Player1,
    Player2,
    Neither,
}

/// One match: the players, the stakes, the tallies and five round slots.
///
/// The per-round data is kept as parallel arrays indexed by round.
#[derive(Clone, Copy, PartialEq, Eq, Debug)]
pub struct Game {
    pub bump: u8,
    pub game_id: [u8; 32],
    pub player1: Identity,
    /// Unset until a second player has joined.
    pub player2: Identity,
    pub house_vault: Identity,
    /// A delegate that may act as player 1 in round operations; unset if none.
    pub session_p1: Identity,
    /// A delegate that may act as player 2 in round operations; unset if none.
    pub session_p2: Identity,
    /// What each player stakes.
    pub bet_amount: u64,
    /// What each player pays the house on entry; never refunded.
    pub entry_fee: u64,
    /// The sum of the bets paid in. Entry fees never enter the pot.
    pub total_pot: u64,
    /// The fee rate in force when the match was created.
    pub house_fee_bps: u16,
    pub rounds_played: u8,
    pub player1_wins: u8,
    pub player2_wins: u8,
    pub status: GameStatus,
    /// The tick at which the match was created.
    pub created_slot: u64,
    pub commitments_p1: [[u8; 32]; MAX_ROUNDS],
    pub commitments_p2: [[u8; 32]; MAX_ROUNDS],
    pub committed_p1: [bool; MAX_ROUNDS],
    pub committed_p2: [bool; MAX_ROUNDS],
    pub moves_p1: [u8; MAX_ROUNDS],
    pub moves_p2: [u8; MAX_ROUNDS],
    pub revealed_p1: [bool; MAX_ROUNDS],
    pub revealed_p2: [bool; MAX_ROUNDS],
    /// The last tick at which a commitment is accepted; zero until the round
    /// has been started.
    pub commit_deadline_slots: [u64; MAX_ROUNDS],
    pub round_resolved: [bool; MAX_ROUNDS],
}

/// 1 for `true`, 0 for `false`.
pub open spec fn count_of(flag: bool) -> int {
    if flag {
        1
    } else {
        0
    }
}

impl Game {
    /// The bytes a stored match takes: an 8-byte tag, then the fields in
    /// order, each round array at its fixed length.
    pub const SPACE: usize = 8 + 1 + 32 + 32 * 3 + 32 * 2 + 8 * 3 + 2 + 1 * 4 + 8 + (32 * MAX_ROUNDS)
        * 2 + (1 * MAX_ROUNDS) * 2 + (1 * MAX_ROUNDS) * 2 + (1 * MAX_ROUNDS) * 2 + (8 * MAX_ROUNDS)
        + (1 * MAX_ROUNDS);

    /// `caller` is player 1 or player 1's delegate.
    pub open spec fn acts_for_player1(&self, caller: Identity) -> bool {
        caller == self.player1 || caller == self.session_p1
    }

    /// `caller` is player 2 or player 2's delegate.
    pub open spec fn acts_for_player2(&self, caller: Identity) -> bool {
        caller == self.player2 || caller == self.session_p2
    }

    /// `caller` is one of the two players or one of their delegates.
    pub open spec fn is_party(&self, caller: Identity) -> bool {
        self.acts_for_player1(caller) || self.acts_for_player2(caller)
    }

    /// The side `caller` acts for. A key that would fit both sides counts for
    /// player 1.
    pub open spec fn role_of(&self, caller: Identity) -> CallerRole {
        if self.acts_for_player1(caller) {
            CallerRole::Player1
        } else if self.acts_for_player2(caller) {
            CallerRole::Player2
        } else {
            CallerRole::Neither
        }
    }

    /// The seat `caller` holds in person. A key that holds both seats counts
    /// for player 1.
    pub open spec fn seat_of(&self, caller: Identity) -> CallerRole {
        if caller == self.player1 {
            CallerRole::Player1
        } else if caller == self.player2 {
            CallerRole::Player2
        } else {
            CallerRole::Neither
        }
    }

    /// How many players have paid their bet into the pot.
    pub open spec fn players_paid(&self) -> int {
        if self.status == GameStatus::WaitingForPlayer2 {
            1
        } else {
            2
        }
    }

    /// How many of the five round slots are resolved.
    pub open spec fn resolved_count(&self) -> int {
        count_of(self.round_resolved[0]) + count_of(self.round_resolved[1]) + count_of(
            self.round_resolved[2],
        ) + count_of(self.round_resolved[3]) + count_of(self.round_resolved[4])
    }

    /// Both players have committed to round `i`.
    pub open spec fn both_committed(&self, i: int) -> bool {
        self.committed_p1[i] && self.committed_p2[i]
    }

    /// Both players have revealed their move of round `i`.
    pub open spec fn both_revealed(&self, i: int) -> bool {
        self.revealed_p1[i] && self.revealed_p2[i]
    }

    /// Round slot `i` is as a new match has it: nothing committed, nothing
    /// revealed, not started, not resolved, all bytes zero.
    pub open spec fn slot_empty(&self, i: int) -> bool {
        &&& forall|j: int| 0 <= j < 32 ==> (#[trigger] self.commitments_p1[i][j]) == 0
        &&& forall|j: int| 0 <= j < 32 ==> (#[trigger] self.commitments_p2[i][j]) == 0
        &&& !self.committed_p1[i]
        &&& !self.committed_p2[i]
        &&& self.moves_p1[i] == 0
        &&& self.moves_p2[i] == 0
        &&& !self.revealed_p1[i]
        &&& !self.revealed_p2[i]
        &&& self.commit_deadline_slots[i] == 0
        &&& !self.round_resolved[i]
    }

    /// What holds of every round slot: nothing is committed or resolved
    /// before the round was started, nothing is revealed before both sides
    /// have committed, a stored move is a legal move, and a round with both
    /// moves on the table is resolved.
    pub open spec fn slot_wf(&self, i: int) -> bool {
        &&& self.committed_p1[i] ==> self.commit_deadline_slots[i] != 0
        &&& self.committed_p2[i] ==> self.commit_deadline_slots[i] != 0
        &&& self.round_resolved[i] ==> self.commit_deadline_slots[i] != 0
        &&& self.revealed_p1[i] ==> self.both_committed(i)
        &&& self.revealed_p2[i] ==> self.both_committed(i)
        &&& self.moves_p1[i] <= 2
        &&& self.moves_p2[i] <= 2
        &&& !self.revealed_p1[i] ==> self.moves_p1[i] == 0
        &&& !self.revealed_p2[i] ==> self.moves_p2[i] == 0
        &&& self.both_revealed(i) ==> self.round_resolved[i]
    }

    /// The match has not reached its end: it is waiting, being played, or was
    /// called off.
    pub open spec fn undecided(&self) -> bool {
        self.status == GameStatus::WaitingForPlayer2 || self.status == GameStatus::Active
            || self.status == GameStatus::Cancelled
    }

    /// One of the two ways a match finishes has come about: a player holds
    /// three wins, or all five rounds are played.
    pub open spec fn finish_reached(&self) -> bool {
        self.player1_wins >= WINS_TO_FINISH || self.player2_wins >= WINS_TO_FINISH
            || self.rounds_played >= MAX_ROUNDS
    }

    /// What every operation keeps true of a match: the fee rate is within
    /// the maximum and the stakes within their bounds; the pot is one bet for
    /// each player who has paid; the rounds played are the slots resolved;
    /// the match is finished or settled exactly when a player holds three
    /// wins or five rounds are played; until then the wins do not exceed the
    /// rounds played; a waiting match has no second player and no round
    /// begun; and every round slot is in order.
    pub open spec fn wf(&self) -> bool {
        &&& self.house_fee_bps <= MAX_HOUSE_FEE_BPS
        &&& self.bet_amount >= MIN_BET_LAMPORTS
        &&& self.entry_fee > 0
        &&& self.total_pot == self.bet_amount * self.players_paid()
        &&& self.rounds_played == self.resolved_count()
        &&& self.player1_wins <= WINS_TO_FINISH
        &&& self.player2_wins <= WINS_TO_FINISH
        &&& self.undecided() ==> !self.finish_reached()
        &&& self.undecided() ==> self.player1_wins + self.player2_wins <= self.rounds_played
        &&& !self.undecided() ==> self.finish_reached()
        &&& self.status == GameStatus::WaitingForPlayer2 ==> self.player2.is_unset_spec()
        &&& self.status == GameStatus::WaitingForPlayer2 ==> forall|i: int|
            0 <= i < MAX_ROUNDS ==> self.slot_empty(i)
        &&& forall|i: int| 0 <= i < MAX_ROUNDS ==> self.slot_wf(i)
    }
}

} // verus!
