//! What holds of the operations taken together.

use vstd::prelude::*;
use crate::accounts::AuthorizeSessionSigner;
use crate::accounts::CancelGame;
use crate::accounts::CancelGameIfTimedOut;
use crate::accounts::CreateGame;
use crate::accounts::JoinGame;
use crate::accounts::SettleGame;
use crate::escrow::vault_transfer;
use crate::escrow::Custody;
use crate::escrow::Transfer;
use crate::commitment::commitment_digest;
use crate::commitment::commitment_preimage;
use crate::commitment::lemma_preimage_injective;
use crate::commitment::no_collision;
use crate::identity::Identity;
use crate::outcome::RoundResult;
use crate::permissions::permitted;
use crate::permissions::Operation;
use crate::rounds::commit_move_error;
use crate::rounds::commit_move_state;
use crate::rounds::lemma_commit_move_keeps_wf;
use crate::rounds::lemma_reveal_keeps_wf;
use crate::rounds::resolve_commit_timeout_error;
use crate::rounds::resolve_commit_timeout_state;
use crate::rounds::resolved_state;
use crate::rounds::reveal_digest;
use crate::rounds::reveal_error;
use crate::rounds::reveal_matches;
use crate::rounds::reveal_state;
use crate::rounds::side_commitment;
use crate::rounds::side_key;
use crate::rounds::side_revealed;
use crate::rounds::start_round_error;
use crate::rounds::start_round_state;
use crate::rounds::tally_overflows;
use crate::session::authorize_session_signer_error;
use crate::session::authorize_session_signer_state;
use crate::session::cancel_game_error;
use crate::session::cancel_game_if_timed_out_error;
use crate::session::cancel_game_state;
use crate::session::cancel_game_transfers;
use crate::session::entry_transfers;
use crate::session::forfeit_game_error;
use crate::session::forfeit_game_state;
use crate::session::is_created;
use crate::session::join_game_error;
use crate::session::join_game_state;
use crate::session::settle_game_error;
use crate::session::settle_game_state;
use crate::session::settle_game_transfers;
use crate::session::stakes_error;
use crate::settlement::house_fee_of;
use crate::settlement::lemma_fee_within_pot;
use crate::settlement::settlement_of;
use crate::settlement::settlement_overflows;
use crate::settlement::settlement_transfers;
use crate::state::CallerRole;
use crate::state::Game;
use crate::state::GameStatus;
use crate::state::HouseVault;
use crate::state::RpsError;
use crate::state::MAX_ROUNDS;
use crate::state::WINS_TO_FINISH;

verus! {

// ---------------------------------------------------------------------------
// Funds
// ---------------------------------------------------------------------------

/// The sum of the amounts of a list of transfers.
pub open spec fn total_amount(transfers: Seq<Transfer>) -> int
    decreases transfers.len(),
{
    if transfers.len() == 0 {
        0
    } else {
        total_amount(transfers.drop_last()) + transfers.last().amount
    }
}

/// The sum over two lists, one after the other, is the sum of the sums.
pub proof fn lemma_total_amount_concat(a: Seq<Transfer>, b: Seq<Transfer>)
    ensures
        total_amount(a + b) == total_amount(a) + total_amount(b),
    decreases b.len(),
{
    if b.len() != 0 {
        assert((a + b).drop_last() =~= a + b.drop_last());
        lemma_total_amount_concat(a, b.drop_last());
    }
}

/// A payment out of a vault moves exactly its amount.
pub proof fn lemma_total_amount_vault_transfer(amount: u64, from: Custody, to: Custody)
    ensures
        total_amount(vault_transfer(amount, from, to)) == amount,
{
    reveal_with_fuel(total_amount, 2);
}

/// A match is created and then joined. For every bet that is at least the
/// minimum and whose double fits in 64 bits, and every entry fee above zero:
/// `join_game` accepts, the pot is twice the bet, the match is active, and of
/// the four transfers called for two carry one bet each into the match's
/// vault and two carry one entry fee each to the house. The creator's key
/// must not be the unset one, and the joiner must name the fee configuration
/// that the match was created under.
pub proof fn lemma_create_then_join(
    game: Game,
    create: CreateGame,
    vault: HouseVault,
    game_id: [u8; 32],
    bet_amount: u64,
    entry_fee: u64,
    current_slot: u64,
    join: JoinGame,
)
    requires
        stakes_error(bet_amount, entry_fee) is None,
        2 * bet_amount <= u64::MAX,
        !create.player1.is_unset_spec(),
        join.house_vault == create.house_vault,
        is_created(game, create, vault, game_id, bet_amount, entry_fee, current_slot),
    ensures
        join_game_error(game, join) is None,
        join_game_state(game, join).total_pot == 2 * bet_amount,
        join_game_state(game, join).status == GameStatus::Active,
        join_game_state(game, join).player2 == join.player2,
        ({
            let transfers = entry_transfers(Custody::Player1, bet_amount, entry_fee) + entry_transfers(
                Custody::Player2,
                game.bet_amount,
                game.entry_fee,
            );
            &&& transfers.len() == 4
            &&& transfers[0] == (Transfer {
                from: Custody::Player1,
                to: Custody::GameVault,
                amount: bet_amount,
            })
            &&& transfers[1] == (Transfer {
                from: Custody::Player1,
                to: Custody::HouseVault,
                amount: entry_fee,
            })
            &&& transfers[2] == (Transfer {
                from: Custody::Player2,
                to: Custody::GameVault,
                amount: bet_amount,
            })
            &&& transfers[3] == (Transfer {
                from: Custody::Player2,
                to: Custody::HouseVault,
                amount: entry_fee,
            })
        }),
{
}

/// What a settlement hands out adds up to the pot: nothing leaks and nothing
/// is made. A decided match pays the house `fee_bps` basis points of the pot,
/// rounded down, and the winner the rest. A drawn match pays no rake; the
/// players' shares differ by the odd unit, which player 1 gets.
pub proof fn lemma_settlement_conserves_pot(
    pot: u64,
    fee_bps: u16,
    player1_wins: u8,
    player2_wins: u8,
)
    requires
        !settlement_overflows(pot, fee_bps, player1_wins, player2_wins),
    ensures
        ({
            let s = settlement_of(pot, fee_bps, player1_wins, player2_wins);
            &&& s.payout_p1 + s.payout_p2 + s.house_fee == pot
            &&& total_amount(settlement_transfers(s)) == pot
            &&& player1_wins != player2_wins ==> s.house_fee == house_fee_of(pot, fee_bps)
            &&& player1_wins > player2_wins ==> s.payout_p2 == 0
            &&& player2_wins > player1_wins ==> s.payout_p1 == 0
            &&& player1_wins == player2_wins ==> {
                &&& s.house_fee == 0
                &&& s.payout_p2 == pot / 2
                &&& s.payout_p1 == s.payout_p2 + pot % 2
            }
        }),
{
    let s = settlement_of(pot, fee_bps, player1_wins, player2_wins);
    if player1_wins != player2_wins {
        assert(0 <= pot * fee_bps) by (nonlinear_arith)
            requires
                fee_bps >= 0,
                pot >= 0,
        ;
    }
    let a = vault_transfer(s.payout_p1, Custody::GameVault, Custody::Player1);
    let b = vault_transfer(s.payout_p2, Custody::GameVault, Custody::Player2);
    let c = vault_transfer(s.house_fee, Custody::GameVault, Custody::HouseVault);
    lemma_total_amount_vault_transfer(s.payout_p1, Custody::GameVault, Custody::Player1);
    lemma_total_amount_vault_transfer(s.payout_p2, Custody::GameVault, Custody::Player2);
    lemma_total_amount_vault_transfer(s.house_fee, Custody::GameVault, Custody::HouseVault);
    lemma_total_amount_concat(a, b);
    lemma_total_amount_concat(a + b, c);
}

/// Settling a well-formed match refuses for overflow only when the match is
/// decided and the pot times the fee rate does not fit in 64 bits: the rake
/// itself never exceeds the pot. When it does not refuse, the transfers it
/// calls for add up to the pot, which is both bets.
pub proof fn lemma_settle_pays_whole_pot(game: Game)
    requires
        game.wf(),
        game.status == GameStatus::Finished,
    ensures
        game.total_pot == 2 * game.bet_amount,
        settlement_overflows(
            game.total_pot,
            game.house_fee_bps,
            game.player1_wins,
            game.player2_wins,
        ) <==> game.player1_wins != game.player2_wins && game.total_pot * game.house_fee_bps
            > u64::MAX,
        !settlement_overflows(
            game.total_pot,
            game.house_fee_bps,
            game.player1_wins,
            game.player2_wins,
        ) ==> total_amount(settle_game_transfers(game)) == game.total_pot,
{
    let pot = game.total_pot;
    let bps = game.house_fee_bps;
    lemma_fee_within_pot(pot, bps);
    if !settlement_overflows(pot, bps, game.player1_wins, game.player2_wins) {
        lemma_settlement_conserves_pot(pot, bps, game.player1_wins, game.player2_wins);
    }
}

// ---------------------------------------------------------------------------
// Tallies and the end of a match
// ---------------------------------------------------------------------------

/// In a well-formed match at most five rounds are played and nobody holds
/// more than three wins. While the match is undecided the wins do not exceed
/// the rounds played. (After a forfeit they may: the three wins credited are
/// not rounds.)
pub proof fn lemma_tallies_bounded(game: Game)
    requires
        game.wf(),
    ensures
        game.rounds_played <= MAX_ROUNDS,
        game.player1_wins <= WINS_TO_FINISH,
        game.player2_wins <= WINS_TO_FINISH,
        game.undecided() ==> game.player1_wins + game.player2_wins <= game.rounds_played,
{
}

/// A well-formed match is finished or settled exactly when a player holds
/// three wins or five rounds are played.
pub proof fn lemma_finished_iff_decided(game: Game)
    requires
        game.wf(),
    ensures
        (game.status == GameStatus::Finished || game.status == GameStatus::Settled)
            <==> game.finish_reached(),
{
}

/// Counting a round never lets the wins outrun the rounds played, and it
/// finishes the match exactly when it brings a tally to three or the rounds
/// to five.
pub proof fn lemma_round_counts(game: Game, i: int, result: RoundResult)
    requires
        game.wf(),
        game.status == GameStatus::Active,
        0 <= i < MAX_ROUNDS,
    ensures
        !tally_overflows(game, result),
        ({
            let after = resolved_state(game, i, result);
            &&& after.rounds_played == game.rounds_played + 1
            &&& after.player1_wins + after.player2_wins <= after.rounds_played
            &&& after.status == GameStatus::Finished <==> after.finish_reached()
            &&& after.status == GameStatus::Finished || after.status == GameStatus::Active
        }),
{
}

/// Three rounds in a row for player 1 from the start of a match finish it
/// there: after the first and the second the match is still active, after the
/// third it is finished with three wins in three rounds, and a fourth round
/// cannot be started.
pub proof fn lemma_three_straight_wins_finish(
    game: Game,
    first: int,
    second: int,
    third: int,
    caller: Identity,
    fourth: u8,
    current_slot: u64,
)
    requires
        game.status == GameStatus::Active,
        game.rounds_played == 0,
        game.player1_wins == 0,
        game.player2_wins == 0,
    ensures
        ({
            let one = resolved_state(game, first, RoundResult::Player1Win);
            let two = resolved_state(one, second, RoundResult::Player1Win);
            let three = resolved_state(two, third, RoundResult::Player1Win);
            &&& one.status == GameStatus::Active
            &&& two.status == GameStatus::Active
            &&& three.status == GameStatus::Finished
            &&& three.player1_wins == 3
            &&& three.player2_wins == 0
            &&& three.rounds_played == 3
            &&& start_round_error(three, caller, fourth, current_slot) is Some
        }),
{
}

/// A forfeit finishes the match with three wins for the side that stayed,
/// whatever the tallies were.
pub proof fn lemma_forfeit_decides(game: Game, loser_is_player1: bool)
    requires
        forfeit_game_error(game) is None,
    ensures
        ({
            let after = forfeit_game_state(game, loser_is_player1);
            &&& after.status == GameStatus::Finished
            &&& loser_is_player1 ==> after.player2_wins == WINS_TO_FINISH && after.player1_wins
                == game.player1_wins
            &&& !loser_is_player1 ==> after.player1_wins == WINS_TO_FINISH && after.player2_wins
                == game.player2_wins
            &&& after.total_pot == game.total_pot
        }),
{
}

// ---------------------------------------------------------------------------
// Timeouts
// ---------------------------------------------------------------------------

/// When the commit window of a round has run out with exactly one commitment
/// in, resolving the timeout is accepted and credits the round to the side
/// that committed. With no commitment in, the round counts as played and
/// nobody is credited.
pub proof fn lemma_timeout_credits_the_committed_side(game: Game, round_index: u8, current_slot: u64)
    requires
        game.wf(),
        game.status == GameStatus::Active,
        round_index < MAX_ROUNDS,
        game.commit_deadline_slots[round_index as int] != 0,
        current_slot > game.commit_deadline_slots[round_index as int],
        !game.round_resolved[round_index as int],
        !game.both_committed(round_index as int),
    ensures
        resolve_commit_timeout_error(game, round_index, current_slot) is None,
        ({
            let i = round_index as int;
            let after = resolve_commit_timeout_state(game, round_index);
            &&& after.round_resolved[i]
            &&& after.rounds_played == game.rounds_played + 1
            &&& after.player1_wins == game.player1_wins + (if game.committed_p1[i] {
                1int
            } else {
                0int
            })
            &&& after.player2_wins == game.player2_wins + (if game.committed_p2[i] {
                1int
            } else {
                0int
            })
        }),
{
}

/// At any one tick a round takes a commitment or a timeout, never both: up
/// to the deadline only commitments, after it only the timeout.
pub proof fn lemma_commit_and_timeout_exclude_each_other(
    game: Game,
    caller: Identity,
    round_index: u8,
    current_slot: u64,
)
    ensures
        !(commit_move_error(game, caller, round_index, current_slot) is None
            && resolve_commit_timeout_error(game, round_index, current_slot) is None),
        round_index < MAX_ROUNDS && current_slot > game.commit_deadline_slots[round_index as int]
            ==> commit_move_error(game, caller, round_index, current_slot) is Some,
        round_index < MAX_ROUNDS && current_slot <= game.commit_deadline_slots[round_index as int]
            ==> resolve_commit_timeout_error(game, round_index, current_slot) is Some,
{
}

/// Once both sides have committed to a round, no timeout resolves it at any
/// tick, the round cannot be started again, and neither side can commit
/// again: of the round operations only a reveal can move the round on.
pub proof fn lemma_both_committed_leaves_only_reveal(
    game: Game,
    caller: Identity,
    round_index: u8,
    current_slot: u64,
)
    requires
        game.wf(),
        round_index < MAX_ROUNDS,
        game.both_committed(round_index as int),
    ensures
        resolve_commit_timeout_error(game, round_index, current_slot) is Some,
        game.status == GameStatus::Active && current_slot > game.commit_deadline_slots[round_index as int]
            && !game.round_resolved[round_index as int] ==> resolve_commit_timeout_error(
            game,
            round_index,
            current_slot,
        ) == Some(RpsError::BothCommittedNoTimeout),
        start_round_error(game, caller, round_index, current_slot) is Some,
        commit_move_error(game, caller, round_index, current_slot) is Some,
{
    assert(game.slot_wf(round_index as int));
}

// ---------------------------------------------------------------------------
// Commit and reveal
// ---------------------------------------------------------------------------

/// A delegate's reveal is held against the same hash as the player's own:
/// the hash is made with the persistent key of the side, not with the key
/// that makes the call.
pub proof fn lemma_reveal_digest_is_per_side(
    game: Game,
    caller: Identity,
    other: Identity,
    round_index: u8,
    move_value: u8,
    nonce: [u8; 32],
)
    requires
        game.role_of(caller) == game.role_of(other),
    ensures
        reveal_digest(game, caller, round_index, move_value, nonce) == reveal_digest(
            game,
            other,
            round_index,
            move_value,
            nonce,
        ),
{
}

/// A side commits to the hash of a legal move, a nonce, the match, the round
/// and its persistent key. Then the commitment is stored as given, and as
/// soon as both commitments are in, revealing that move and nonce is
/// accepted, from the player or the player's delegate.
pub proof fn lemma_commit_reveal_round_trip(
    game: Game,
    caller: Identity,
    revealer: Identity,
    round_index: u8,
    move_value: u8,
    nonce: [u8; 32],
    commitment: [u8; 32],
    commit_slot: u64,
)
    requires
        game.wf(),
        move_value <= 2,
        commit_move_error(game, caller, round_index, commit_slot) is None,
        commitment@ == reveal_digest(game, caller, round_index, move_value, nonce),
        game.role_of(revealer) == game.role_of(caller),
    ensures
        ({
            let i = round_index as int;
            let committed = commit_move_state(game, caller, round_index, commitment);
            &&& committed.wf()
            &&& side_commitment(committed, committed.role_of(caller), i) == commitment
            &&& reveal_matches(committed, revealer, round_index, move_value, nonce)
            &&& committed.both_committed(i) && !committed.round_resolved[i] ==> {
                &&& reveal_error(committed, revealer, round_index, move_value, true) is None
                &&& reveal_state(committed, revealer, round_index, move_value).wf()
            }
        }),
{
    let i = round_index as int;
    let committed = commit_move_state(game, caller, round_index, commitment);
    lemma_commit_move_keeps_wf(game, caller, round_index, commitment, commit_slot);
    assert(game.slot_wf(i));
    if committed.both_committed(i) && !committed.round_resolved[i] {
        lemma_reveal_keeps_wf(committed, revealer, round_index, move_value);
    }
}

/// A first reveal of a side whose hash is not the stored commitment is
/// refused with `CommitmentMismatch`.
pub proof fn lemma_wrong_reveal_is_a_mismatch(
    game: Game,
    caller: Identity,
    round_index: u8,
    move_value: u8,
    nonce: [u8; 32],
)
    requires
        game.is_party(caller),
        game.status == GameStatus::Active,
        round_index < MAX_ROUNDS,
        move_value <= 2,
        game.both_committed(round_index as int),
        !game.round_resolved[round_index as int],
        !side_revealed(game, game.role_of(caller), round_index as int),
        side_commitment(game, game.role_of(caller), round_index as int)@ != reveal_digest(
            game,
            caller,
            round_index,
            move_value,
            nonce,
        ),
    ensures
        reveal_error(
            game,
            caller,
            round_index,
            move_value,
            reveal_matches(game, caller, round_index, move_value, nonce),
        ) == Some(RpsError::CommitmentMismatch),
{
}

/// A side's stored commitment was made from a move, a nonce, a match, a
/// round and a key. A first reveal by that side that differs from them in
/// anything (another move, another nonce, or a reveal in another match, in
/// another round or for another player's key) is refused with
/// `CommitmentMismatch`, as long as SHA-256 tells the committed byte string
/// from the revealed one.
pub proof fn lemma_changed_reveal_is_refused(
    game: Game,
    caller: Identity,
    round_index: u8,
    move_value: u8,
    nonce: [u8; 32],
    committed_move: u8,
    committed_nonce: [u8; 32],
    committed_game_id: [u8; 32],
    committed_round: u8,
    committed_player: Identity,
)
    requires
        game.is_party(caller),
        game.status == GameStatus::Active,
        round_index < MAX_ROUNDS,
        move_value <= 2,
        game.both_committed(round_index as int),
        !game.round_resolved[round_index as int],
        !side_revealed(game, game.role_of(caller), round_index as int),
        side_commitment(game, game.role_of(caller), round_index as int)@ == commitment_digest(
            committed_move,
            committed_nonce,
            committed_game_id,
            committed_round,
            committed_player,
        ),
        move_value != committed_move || nonce != committed_nonce || game.game_id
            != committed_game_id || round_index != committed_round || side_key(
            game,
            game.role_of(caller),
        ) != committed_player,
        no_collision(
            commitment_preimage(
                committed_move,
                committed_nonce@,
                committed_game_id@,
                committed_round,
                committed_player.bytes@,
            ),
            commitment_preimage(
                move_value,
                nonce@,
                game.game_id@,
                round_index,
                side_key(game, game.role_of(caller)).bytes@,
            ),
        ),
    ensures
        reveal_error(
            game,
            caller,
            round_index,
            move_value,
            reveal_matches(game, caller, round_index, move_value, nonce),
        ) == Some(RpsError::CommitmentMismatch),
{
    lemma_preimage_injective(
        committed_move,
        committed_nonce,
        committed_game_id,
        committed_round,
        committed_player,
        move_value,
        nonce,
        game.game_id,
        round_index,
        side_key(game, game.role_of(caller)),
    );
}

// ---------------------------------------------------------------------------
// Ends that stay ends
// ---------------------------------------------------------------------------

/// A match is settled once. After an accepted settlement the match is
/// settled, and every further attempt is refused: with `GameNotFinished` when
/// it names the right accounts, and in any case before any transfer is called
/// for.
pub proof fn lemma_settle_only_once(game: Game, ctx: SettleGame, again: SettleGame)
    requires
        settle_game_error(game, ctx) is None,
    ensures
        settle_game_state(game).status == GameStatus::Settled,
        settle_game_error(settle_game_state(game), again) is Some,
        settle_game_error(settle_game_state(game), ctx) == Some(RpsError::GameNotFinished),
{
}

/// A settled or cancelled match takes no operation any more: the end of a
/// match cannot be undone or followed by another.
pub proof fn lemma_ended_match_refuses_everything(
    game: Game,
    caller: Identity,
    round_index: u8,
    move_value: u8,
    matches: bool,
    current_slot: u64,
    join: JoinGame,
    authorize: AuthorizeSessionSigner,
    cancel: CancelGame,
    settle: SettleGame,
    close: CancelGameIfTimedOut,
)
    requires
        game.status == GameStatus::Settled || game.status == GameStatus::Cancelled,
    ensures
        join_game_error(game, join) is Some,
        authorize_session_signer_error(game, authorize) is Some,
        start_round_error(game, caller, round_index, current_slot) is Some,
        commit_move_error(game, caller, round_index, current_slot) is Some,
        reveal_error(game, caller, round_index, move_value, matches) is Some,
        resolve_commit_timeout_error(game, round_index, current_slot) is Some,
        forfeit_game_error(game) is Some,
        cancel_game_error(game, cancel) is Some,
        settle_game_error(game, settle) is Some,
        cancel_game_if_timed_out_error(game, close, current_slot) is Some,
{
}

/// A finished match takes no round operation, no forfeit and no
/// cancellation: it can only be settled.
pub proof fn lemma_finished_match_is_only_settled(
    game: Game,
    caller: Identity,
    round_index: u8,
    move_value: u8,
    matches: bool,
    current_slot: u64,
    join: JoinGame,
    authorize: AuthorizeSessionSigner,
    cancel: CancelGame,
    close: CancelGameIfTimedOut,
)
    requires
        game.status == GameStatus::Finished,
    ensures
        join_game_error(game, join) is Some,
        authorize_session_signer_error(game, authorize) is Some,
        start_round_error(game, caller, round_index, current_slot) is Some,
        commit_move_error(game, caller, round_index, current_slot) is Some,
        reveal_error(game, caller, round_index, move_value, matches) is Some,
        resolve_commit_timeout_error(game, round_index, current_slot) is Some,
        forfeit_game_error(game) is Some,
        cancel_game_error(game, cancel) is Some,
        cancel_game_if_timed_out_error(game, close, current_slot) is Some,
{
}

/// Calling off a well-formed active match hands each player exactly the bet
/// back, which empties the pot.
pub proof fn lemma_cancel_refunds_both_bets(game: Game, ctx: CancelGame)
    requires
        game.wf(),
        cancel_game_error(game, ctx) is None,
    ensures
        cancel_game_state(game).status == GameStatus::Cancelled,
        cancel_game_transfers(game) == seq![
            Transfer { from: Custody::GameVault, to: Custody::Player1, amount: game.bet_amount },
            Transfer { from: Custody::GameVault, to: Custody::Player2, amount: game.bet_amount },
        ],
        total_amount(cancel_game_transfers(game)) == game.total_pot,
{
    let bet = game.bet_amount;
    let a = vault_transfer(bet, Custody::GameVault, Custody::Player1);
    let b = vault_transfer(bet, Custody::GameVault, Custody::Player2);
    assert(a + b =~= seq![
        Transfer { from: Custody::GameVault, to: Custody::Player1, amount: bet },
        Transfer { from: Custody::GameVault, to: Custody::Player2, amount: bet },
    ]);
    lemma_total_amount_vault_transfer(bet, Custody::GameVault, Custody::Player1);
    lemma_total_amount_vault_transfer(bet, Custody::GameVault, Custody::Player2);
    lemma_total_amount_concat(a, b);
}

// ---------------------------------------------------------------------------
// What is written once
// ---------------------------------------------------------------------------

/// Round slot `i` of `after` holds all that slot `i` of `before` held: a
/// deadline once set, a commitment once made, a move once revealed and a
/// resolution once reached are still there, unchanged.
pub open spec fn slot_kept(before: Game, after: Game, i: int) -> bool {
    &&& before.commit_deadline_slots[i] != 0 ==> after.commit_deadline_slots[i]
        == before.commit_deadline_slots[i]
    &&& before.committed_p1[i] ==> after.committed_p1[i] && after.commitments_p1[i]
        == before.commitments_p1[i]
    &&& before.committed_p2[i] ==> after.committed_p2[i] && after.commitments_p2[i]
        == before.commitments_p2[i]
    &&& before.revealed_p1[i] ==> after.revealed_p1[i] && after.moves_p1[i] == before.moves_p1[i]
    &&& before.revealed_p2[i] ==> after.revealed_p2[i] && after.moves_p2[i] == before.moves_p2[i]
    &&& before.round_resolved[i] ==> after.round_resolved[i]
}

/// No accepted round operation rewrites a round slot. A deadline is set once
/// and never moved, so a window that has run out cannot be opened again. A
/// commitment cannot be replaced, so nobody can choose a move after seeing
/// the other side's. A revealed move stays, and a resolved round stays
/// resolved.
pub proof fn lemma_round_slots_are_written_once(
    game: Game,
    caller: Identity,
    round_index: u8,
    move_value: u8,
    commitment: [u8; 32],
    current_slot: u64,
    i: int,
)
    requires
        0 <= i < MAX_ROUNDS,
    ensures
        start_round_error(game, caller, round_index, current_slot) is None ==> slot_kept(
            game,
            start_round_state(game, round_index, current_slot),
            i,
        ),
        commit_move_error(game, caller, round_index, current_slot) is None ==> slot_kept(
            game,
            commit_move_state(game, caller, round_index, commitment),
            i,
        ),
        reveal_error(game, caller, round_index, move_value, true) is None ==> slot_kept(
            game,
            reveal_state(game, caller, round_index, move_value),
            i,
        ),
        resolve_commit_timeout_error(game, round_index, current_slot) is None ==> slot_kept(
            game,
            resolve_commit_timeout_state(game, round_index),
            i,
        ),
{
}

/// A resolved round takes neither a reveal nor a timeout, and cannot be
/// started again: no round is counted twice.
pub proof fn lemma_resolved_round_is_closed(
    game: Game,
    caller: Identity,
    round_index: u8,
    move_value: u8,
    matches: bool,
    current_slot: u64,
)
    requires
        round_index < MAX_ROUNDS,
        game.round_resolved[round_index as int],
    ensures
        reveal_error(game, caller, round_index, move_value, matches) is Some,
        resolve_commit_timeout_error(game, round_index, current_slot) is Some,
        start_round_error(game, caller, round_index, current_slot) is Some,
{
}

// ---------------------------------------------------------------------------
// What never changes
// ---------------------------------------------------------------------------

/// Two records agree in what is fixed when a match is created: its
/// identifier, its creator, its fee configuration and fee rate, its stakes,
/// and the tick of its creation.
pub open spec fn same_terms(a: Game, b: Game) -> bool {
    &&& a.bump == b.bump
    &&& a.game_id == b.game_id
    &&& a.player1 == b.player1
    &&& a.house_vault == b.house_vault
    &&& a.bet_amount == b.bet_amount
    &&& a.entry_fee == b.entry_fee
    &&& a.house_fee_bps == b.house_fee_bps
    &&& a.created_slot == b.created_slot
}

/// No operation changes the terms a match was created with. In particular
/// the fee rate of a match is the one in force at its creation, whatever the
/// administrator sets later.
pub proof fn lemma_terms_are_fixed(
    game: Game,
    caller: Identity,
    round_index: u8,
    move_value: u8,
    commitment: [u8; 32],
    current_slot: u64,
    loser_is_player1: bool,
    join: JoinGame,
    authorize: AuthorizeSessionSigner,
    session_pubkey: Identity,
)
    ensures
        same_terms(game, join_game_state(game, join)),
        same_terms(game, authorize_session_signer_state(game, authorize, session_pubkey)),
        same_terms(game, start_round_state(game, round_index, current_slot)),
        same_terms(game, commit_move_state(game, caller, round_index, commitment)),
        same_terms(game, reveal_state(game, caller, round_index, move_value)),
        same_terms(game, resolve_commit_timeout_state(game, round_index)),
        same_terms(game, forfeit_game_state(game, loser_is_player1)),
        same_terms(game, cancel_game_state(game)),
        same_terms(game, settle_game_state(game)),
{
}

// ---------------------------------------------------------------------------
// The table of permissions
// ---------------------------------------------------------------------------

/// No operation is accepted that the table of permissions does not allow the
/// caller on a match of that status. The round operations and the naming of
/// a delegate are held to the side the caller acts for; the others are open
/// to a caller in any role.
pub proof fn lemma_accepted_operations_were_permitted(
    game: Game,
    caller: Identity,
    role: CallerRole,
    round_index: u8,
    move_value: u8,
    matches: bool,
    current_slot: u64,
    join: JoinGame,
    authorize: AuthorizeSessionSigner,
    cancel: CancelGame,
    settle: SettleGame,
    close: CancelGameIfTimedOut,
)
    ensures
        join_game_error(game, join) is None ==> permitted(Operation::JoinGame, role, game.status),
        authorize_session_signer_error(game, authorize) is None ==> permitted(
            Operation::AuthorizeSessionSigner,
            game.seat_of(authorize.player),
            game.status,
        ),
        start_round_error(game, caller, round_index, current_slot) is None ==> permitted(
            Operation::StartRound,
            game.role_of(caller),
            game.status,
        ),
        commit_move_error(game, caller, round_index, current_slot) is None ==> permitted(
            Operation::CommitMove,
            game.role_of(caller),
            game.status,
        ),
        reveal_error(game, caller, round_index, move_value, matches) is None ==> permitted(
            Operation::RevealMove,
            game.role_of(caller),
            game.status,
        ),
        resolve_commit_timeout_error(game, round_index, current_slot) is None ==> permitted(
            Operation::ResolveCommitTimeout,
            role,
            game.status,
        ),
        forfeit_game_error(game) is None ==> permitted(Operation::ForfeitGame, role, game.status),
        cancel_game_error(game, cancel) is None ==> permitted(
            Operation::CancelGame,
            role,
            game.status,
        ),
        settle_game_error(game, settle) is None ==> permitted(
            Operation::SettleGame,
            role,
            game.status,
        ),
        cancel_game_if_timed_out_error(game, close, current_slot) is None ==> permitted(
            Operation::CancelGameIfTimedOut,
            role,
            game.status,
        ),
{
}

} // verus!
