//! Who a caller is to a match.

use vstd::prelude::*;
use crate::identity::Identity;
use crate::state::CallerRole;
use crate::state::Game;

verus! {

/// Tells which side `caller` acts for: a player in person or that player's
/// delegate. A caller that is neither is no party to the match.
pub fn classify_caller(game: &Game, caller: &Identity) -> (role: CallerRole)
    ensures
        role == game.role_of(*caller),
{
    if *caller == game.player1 || *caller == game.session_p1 {
        CallerRole::Player1
    } else if *caller == game.player2 || *caller == game.session_p2 {
        CallerRole::Player2
    } else {
        CallerRole::Neither
    }
}

/// Tells which of the two players `caller` is in person. Delegates do not
/// count here.
pub fn classify_player(game: &Game, caller: &Identity) -> (role: CallerRole)
    ensures
        role == game.seat_of(*caller),
{
    if *caller == game.player1 {
        CallerRole::Player1
    } else if *caller == game.player2 {
        CallerRole::Player2
    } else {
        CallerRole::Neither
    }
}

} // verus!
