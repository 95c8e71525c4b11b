//! What holds of a match over any sequence of calls.
//!
//! The ledger runs the operations on one match one after the other, in an
//! order the match does not choose. A call that is refused leaves the record
//! as it was. This module follows a record through an arbitrary sequence of
//! calls and states what holds at every point of every such sequence.

use vstd::prelude::*;
use crate::accounts::AuthorizeSessionSigner;
use crate::accounts::CancelGame;
use crate::accounts::JoinGame;
use crate::accounts::SettleGame;
use crate::identity::Identity;
use crate::laws::lemma_cancel_refunds_both_bets;
use crate::laws::lemma_settle_pays_whole_pot;
use crate::laws::same_terms;
use crate::laws::slot_kept;
use crate::laws::total_amount;
use crate::rounds::commit_move_error;
use crate::rounds::commit_move_state;
use crate::rounds::lemma_commit_move_keeps_wf;
use crate::rounds::lemma_resolve_commit_timeout_keeps_wf;
use crate::rounds::lemma_reveal_keeps_wf;
use crate::rounds::lemma_start_round_keeps_wf;
use crate::rounds::resolve_commit_timeout_error;
use crate::rounds::resolve_commit_timeout_state;
use crate::rounds::reveal_error;
use crate::rounds::reveal_matches;
use crate::rounds::reveal_state;
use crate::rounds::start_round_error;
use crate::rounds::start_round_state;
use crate::session::authorize_session_signer_error;
use crate::session::authorize_session_signer_state;
use crate::session::cancel_game_error;
use crate::session::cancel_game_state;
use crate::session::cancel_game_transfers;
use crate::session::forfeit_game_error;
use crate::session::forfeit_game_state;
use crate::session::join_game_error;
use crate::session::join_game_state;
use crate::session::lemma_authorize_session_signer_keeps_wf;
use crate::session::lemma_cancel_game_keeps_wf;
use crate::session::lemma_forfeit_game_keeps_wf;
use crate::session::lemma_join_game_keeps_wf;
use crate::session::lemma_settle_game_keeps_wf;
use crate::session::settle_game_error;
use crate::session::settle_game_state;
use crate::session::settle_game_transfers;
use crate::state::Game;
use crate::state::GameStatus;
use crate::state::RpsError;
use crate::state::MAX_ROUNDS;

verus! {

/// One call of an operation that writes to the record of a match, with all
/// that the call carries and the tick at which the ledger runs it.
pub enum Call {
    Join { join: JoinGame },
    Authorize { authorize: AuthorizeSessionSigner, session_pubkey: Identity },
    StartRound { caller: Identity, round_index: u8, current_slot: u64 },
    Commit { caller: Identity, round_index: u8, commitment: [u8; 32], current_slot: u64 },
    Reveal { caller: Identity, round_index: u8, move_value: u8, nonce: [u8; 32] },
    ResolveTimeout { round_index: u8, current_slot: u64 },
    Forfeit { loser_is_player1: bool },
    Cancel { cancel: CancelGame },
    Settle { settle: SettleGame },
}

/// Why the call is refused on this record, if it is.
pub open spec fn call_error(game: Game, call: Call) -> Option<RpsError> {
    match call {
        Call::Join { join } => join_game_error(game, join),
        Call::Authorize { authorize, session_pubkey } => authorize_session_signer_error(
            game,
            authorize,
        ),
        Call::StartRound { caller, round_index, current_slot } => start_round_error(
            game,
            caller,
            round_index,
            current_slot,
        ),
        Call::Commit { caller, round_index, commitment, current_slot } => commit_move_error(
            game,
            caller,
            round_index,
            current_slot,
        ),
        Call::Reveal { caller, round_index, move_value, nonce } => reveal_error(
            game,
            caller,
            round_index,
            move_value,
            reveal_matches(game, caller, round_index, move_value, nonce),
        ),
        Call::ResolveTimeout { round_index, current_slot } => resolve_commit_timeout_error(
            game,
            round_index,
            current_slot,
        ),
        Call::Forfeit { loser_is_player1 } => forfeit_game_error(game),
        Call::Cancel { cancel } => cancel_game_error(game, cancel),
        Call::Settle { settle } => settle_game_error(game, settle),
    }
}

/// The record after the call: as the operation leaves it if the call is
/// accepted, as it was if the call is refused.
pub open spec fn after_call(game: Game, call: Call) -> Game {
    if call_error(game, call) is Some {
        game
    } else {
        match call {
            Call::Join { join } => join_game_state(game, join),
            Call::Authorize { authorize, session_pubkey } => authorize_session_signer_state(
                game,
                authorize,
                session_pubkey,
            ),
            Call::StartRound { caller, round_index, current_slot } => start_round_state(
                game,
                round_index,
                current_slot,
            ),
            Call::Commit { caller, round_index, commitment, current_slot } => commit_move_state(
                game,
                caller,
                round_index,
                commitment,
            ),
            Call::Reveal { caller, round_index, move_value, nonce } => reveal_state(
                game,
                caller,
                round_index,
                move_value,
            ),
            Call::ResolveTimeout { round_index, current_slot } => resolve_commit_timeout_state(
                game,
                round_index,
            ),
            Call::Forfeit { loser_is_player1 } => forfeit_game_state(game, loser_is_player1),
            Call::Cancel { cancel } => cancel_game_state(game),
            Call::Settle { settle } => settle_game_state(game),
        }
    }
}

/// The record after the calls, run in order.
pub open spec fn after_calls(game: Game, calls: Seq<Call>) -> Game
    decreases calls.len(),
{
    if calls.len() == 0 {
        game
    } else {
        after_call(after_calls(game, calls.drop_last()), calls.last())
    }
}

/// A match may pass from status `from` to status `to`, in any number of
/// steps: from waiting to active, from active to finished or cancelled, from
/// finished to settled, and never back.
pub open spec fn may_become(from: GameStatus, to: GameStatus) -> bool {
    match from {
        GameStatus::WaitingForPlayer2 => true,
        GameStatus::Active => to != GameStatus::WaitingForPlayer2,
        GameStatus::Finished => to == GameStatus::Finished || to == GameStatus::Settled,
        GameStatus::Cancelled => to == GameStatus::Cancelled,
        GameStatus::Settled => to == GameStatus::Settled,
    }
}

/// What one call, accepted or refused, keeps and can do: a well-formed record
/// stays well-formed, the terms of the match stay as they are, the status
/// moves forward if at all, nothing once written to a round slot is
/// rewritten, and a cancelled or settled record is not written to.
pub proof fn lemma_one_call(game: Game, call: Call)
    ensures
        game.wf() ==> after_call(game, call).wf(),
        same_terms(game, after_call(game, call)),
        may_become(game.status, after_call(game, call).status),
        forall|i: int|
            0 <= i < MAX_ROUNDS ==> #[trigger] slot_kept(game, after_call(game, call), i),
        game.status == GameStatus::Cancelled || game.status == GameStatus::Settled ==> after_call(
            game,
            call,
        ) == game,
{
    if game.wf() && call_error(game, call) is None {
        match call {
            Call::Join { join } => {
                lemma_join_game_keeps_wf(game, join);
            },
            Call::Authorize { authorize, session_pubkey } => {
                lemma_authorize_session_signer_keeps_wf(game, authorize, session_pubkey);
            },
            Call::StartRound { caller, round_index, current_slot } => {
                lemma_start_round_keeps_wf(game, caller, round_index, current_slot);
            },
            Call::Commit { caller, round_index, commitment, current_slot } => {
                lemma_commit_move_keeps_wf(game, caller, round_index, commitment, current_slot);
            },
            Call::Reveal { caller, round_index, move_value, nonce } => {
                lemma_reveal_keeps_wf(game, caller, round_index, move_value);
            },
            Call::ResolveTimeout { round_index, current_slot } => {
                lemma_resolve_commit_timeout_keeps_wf(game, round_index, current_slot);
            },
            Call::Forfeit { loser_is_player1 } => {
                lemma_forfeit_game_keeps_wf(game, loser_is_player1);
            },
            Call::Cancel { cancel } => {
                lemma_cancel_game_keeps_wf(game, cancel);
            },
            Call::Settle { settle } => {
                lemma_settle_game_keeps_wf(game, settle);
            },
        }
    }
}

/// No call is ever refused with `NotCommittedYet`: a reveal before the
/// commitments are in is refused with `BothMustCommitFirst`.
pub proof fn lemma_not_committed_yet_is_never_given(game: Game, call: Call)
    ensures
        call_error(game, call) != Some(RpsError::NotCommittedYet),
{
}

/// At every point of every sequence of calls on a well-formed match the
/// record is well-formed: the bounds on fee rate, stakes, pot and tallies,
/// and the order of every round slot, hold whatever is called, by whomever,
/// in whatever order.
pub proof fn lemma_always_well_formed(game: Game, calls: Seq<Call>)
    requires
        game.wf(),
    ensures
        after_calls(game, calls).wf(),
    decreases calls.len(),
{
    if calls.len() != 0 {
        lemma_always_well_formed(game, calls.drop_last());
        lemma_one_call(after_calls(game, calls.drop_last()), calls.last());
    }
}

/// Over any sequence of calls the terms of a match stay as they were
/// created, the fee rate among them; its status only moves forward; and what
/// was once written to a round slot (a deadline, a commitment, a revealed
/// move, a resolution) is still there.
pub proof fn lemma_nothing_is_taken_back(game: Game, calls: Seq<Call>)
    ensures
        same_terms(game, after_calls(game, calls)),
        may_become(game.status, after_calls(game, calls).status),
        forall|i: int|
            0 <= i < MAX_ROUNDS ==> #[trigger] slot_kept(game, after_calls(game, calls), i),
    decreases calls.len(),
{
    if calls.len() != 0 {
        let before = after_calls(game, calls.drop_last());
        let after = after_calls(game, calls);
        lemma_nothing_is_taken_back(game, calls.drop_last());
        lemma_one_call(before, calls.last());
        assert forall|i: int| 0 <= i < MAX_ROUNDS implies slot_kept(game, after, i) by {
            assert(slot_kept(game, before, i));
            assert(slot_kept(before, after, i));
        }
    }
}

/// A cancelled or settled match is at its end: no sequence of calls changes
/// its record, so none moves funds for it again.
pub proof fn lemma_the_end_is_final(game: Game, calls: Seq<Call>)
    requires
        game.status == GameStatus::Cancelled || game.status == GameStatus::Settled,
    ensures
        after_calls(game, calls) == game,
        forall|k: int|
            0 <= k < calls.len() ==> call_error(game, #[trigger] calls[k]) is Some,
    decreases calls.len(),
{
    if calls.len() != 0 {
        lemma_the_end_is_final(game, calls.drop_last());
        lemma_one_call(game, calls.last());
        assert forall|k: int| 0 <= k < calls.len() implies call_error(game, #[trigger] calls[k])
            is Some by {
            if k < calls.len() - 1 {
                assert(calls.drop_last()[k] == calls[k]);
            }
        }
    }
}

// ---------------------------------------------------------------------------
// The pot
// ---------------------------------------------------------------------------

/// What the match's vault holds for the players according to the record: the
/// pot, until it has been paid out by a cancellation or a settlement.
pub open spec fn held_in_vault(game: Game) -> int {
    if game.status == GameStatus::Cancelled || game.status == GameStatus::Settled {
        0
    } else {
        game.total_pot as int
    }
}

/// What the call has paid into the match's vault: the joiner's bet, if the
/// call is an accepted join.
pub open spec fn paid_in_by(game: Game, call: Call) -> int {
    if call is Join && call_error(game, call) is None {
        game.bet_amount as int
    } else {
        0
    }
}

/// What the call has paid out of the match's vault: the sum of the transfers
/// that an accepted cancellation or settlement calls for.
pub open spec fn paid_out_by(game: Game, call: Call) -> int {
    if call_error(game, call) is Some {
        0
    } else if call is Cancel {
        total_amount(cancel_game_transfers(game))
    } else if call is Settle {
        total_amount(settle_game_transfers(game))
    } else {
        0
    }
}

/// What the calls, run in order, have paid into the match's vault.
pub open spec fn paid_in_over(game: Game, calls: Seq<Call>) -> int
    decreases calls.len(),
{
    if calls.len() == 0 {
        0
    } else {
        paid_in_over(game, calls.drop_last()) + paid_in_by(
            after_calls(game, calls.drop_last()),
            calls.last(),
        )
    }
}

/// What the calls, run in order, have paid out of the match's vault.
pub open spec fn paid_out_over(game: Game, calls: Seq<Call>) -> int
    decreases calls.len(),
{
    if calls.len() == 0 {
        0
    } else {
        paid_out_over(game, calls.drop_last()) + paid_out_by(
            after_calls(game, calls.drop_last()),
            calls.last(),
        )
    }
}

/// One call on a well-formed match changes what the vault holds by exactly
/// what it pays in and out.
pub proof fn lemma_one_call_balances(game: Game, call: Call)
    requires
        game.wf(),
    ensures
        held_in_vault(after_call(game, call)) == held_in_vault(game) + paid_in_by(game, call)
            - paid_out_by(game, call),
        paid_in_by(game, call) >= 0,
        paid_out_by(game, call) >= 0,
{
    if call_error(game, call) is None {
        match call {
            Call::Cancel { cancel } => {
                lemma_cancel_refunds_both_bets(game, cancel);
            },
            Call::Settle { settle } => {
                lemma_settle_pays_whole_pot(game);
            },
            _ => {},
        }
    }
}

/// The books of a match balance over every sequence of calls: what the vault
/// holds at the end is what it held at the start, plus what was paid in,
/// less what was paid out. So no sequence of calls pays out more than was
/// paid in, no pot is paid out twice, and a settlement or a cancellation
/// leaves nothing behind. (Closing a match that nobody joined destroys the
/// record and is no call in this sense.)
pub proof fn lemma_the_books_balance(game: Game, calls: Seq<Call>)
    requires
        game.wf(),
    ensures
        held_in_vault(after_calls(game, calls)) == held_in_vault(game) + paid_in_over(game, calls)
            - paid_out_over(game, calls),
        0 <= paid_out_over(game, calls) <= held_in_vault(game) + paid_in_over(game, calls),
    decreases calls.len(),
{
    if calls.len() != 0 {
        let before = after_calls(game, calls.drop_last());
        lemma_the_books_balance(game, calls.drop_last());
        lemma_always_well_formed(game, calls.drop_last());
        lemma_one_call_balances(before, calls.last());
    }
}

} // verus!
