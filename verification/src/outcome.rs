//! The round-winner rule.

use vstd::prelude::*;

verus! {

/// Who took a round.
#[derive(Clone, Copy, PartialEq, Eq, Structural, Debug)]
pub enum RoundResult {
    Player1Win,
    Player2Win,
    Draw,
}

pub const ROCK: u8 = 0;

pub const PAPER: u8 = 1;

pub const SCISSORS: u8 = 2;

/// `true` when move `a` defeats move `b`: rock blunts scissors, paper wraps
/// rock, scissors cut paper.
pub open spec fn beats(a: u8, b: u8) -> bool {
    ||| (a == ROCK && b == SCISSORS)
    ||| (a == PAPER && b == ROCK)
    ||| (a == SCISSORS && b == PAPER)
}

/// The result of a round in which player 1 showed `m1` and player 2 showed
/// `m2`. Anything that is not a win of one side over the other is a draw.
pub open spec fn round_winner_spec(m1: u8, m2: u8) -> RoundResult {
    if beats(m1, m2) {
        RoundResult::Player1Win
    } else if beats(m2, m1) {
        RoundResult::Player2Win
    } else {
        RoundResult::Draw
    }
}

/// Decides a round from the two revealed moves.
pub fn round_winner(m1: u8, m2: u8) -> (result: RoundResult)
    ensures
        result == round_winner_spec(m1, m2),
{
    if m1 == m2 {
        return RoundResult::Draw;
    }
    match (m1, m2) {
        (0, 2) | (1, 0) | (2, 1) => RoundResult::Player1Win,
        (2, 0) | (0, 1) | (1, 2) => RoundResult::Player2Win,
        _ => RoundResult::Draw,
    }
}

} // verus!
