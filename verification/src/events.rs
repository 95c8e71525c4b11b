//! Notifications that operations hand back for observers of a match.

use vstd::prelude::*;
use crate::identity::Identity;
use crate::state::GameStatus;

verus! {

/// A commitment was stored.
#[derive(Clone, Copy, PartialEq, Eq, Debug)]
pub struct RoundPhaseEvent {
    pub game_id: [u8; 32],
    pub round: u8,
    pub current_slot: u64,
    pub commit_deadline_slot: u64,
    /// Always zero: reveals have no deadline.
    pub reveal_deadline_slot: u64,
    /// Both commitments are in, so the reveals can begin.
    pub both_committed: bool,
}

/// A round was resolved.
#[derive(Clone, Copy, PartialEq, Eq, Debug)]
pub struct RoundResultEvent {
    pub game_id: [u8; 32],
    pub round: u8,
    pub player1_wins: u8,
    pub player2_wins: u8,
    pub rounds_played: u8,
    pub status: GameStatus,
}

/// A round's commit window was opened.
#[derive(Clone, Copy, PartialEq, Eq, Debug)]
pub struct RoundStartEvent {
    pub game_id: [u8; 32],
    pub round: u8,
    pub start_slot: u64,
    pub commit_deadline_slot: u64,
}

/// A match ended by forfeit.
#[derive(Clone, Copy, PartialEq, Eq, Debug)]
pub struct GameForfeitEvent {
    pub game_id: [u8; 32],
    pub loser: Identity,
    pub winner: Identity,
}

/// A match was called off and the bets went back.
#[derive(Clone, Copy, PartialEq, Eq, Debug)]
pub struct GameCancelledEvent {
    pub game_id: [u8; 32],
    pub player1: Identity,
    pub player2: Identity,
    pub player1_refund: u64,
    pub player2_refund: u64,
}

} // verus!
