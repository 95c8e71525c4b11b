//! The protocol of one round: open the commit window, take the two
//! commitments, take the two reveals or let the window run out, resolve.
//!
//! Every operation checks all it has to check before it writes anything, so a
//! refused call leaves the record as it found it.

use vstd::prelude::*;
use vstd::array::spec_array_update;
use crate::accounts::CommitMove;
use crate::accounts::ResolveCommitTimeout;
use crate::accounts::RevealMove;
use crate::accounts::StartRound;
use crate::commitment::check_commitment;
use crate::commitment::commitment_digest;
use crate::commitment::commitment_hash;
use crate::events::RoundPhaseEvent;
use crate::events::RoundResultEvent;
use crate::events::RoundStartEvent;
use crate::identity::Identity;
use crate::outcome::round_winner;
use crate::outcome::round_winner_spec;
use crate::outcome::RoundResult;
use crate::permissions::check_permission;
use crate::permissions::permission_error;
use crate::permissions::Operation;
use crate::roles::classify_caller;
use crate::state::CallerRole;
use crate::state::Game;
use crate::state::GameStatus;
use crate::state::RpsError;
use crate::state::COMMIT_PHASE_SLOTS;
use crate::state::MAX_ROUNDS;
use crate::state::WINS_TO_FINISH;

verus! {

// ---------------------------------------------------------------------------
// Opening the commit window
// ---------------------------------------------------------------------------

/// Why `start_round` refuses, if it does.
pub open spec fn start_round_error(
    game: Game,
    caller: Identity,
    round_index: u8,
    current_slot: u64,
) -> Option<RpsError> {
    let i = round_index as int;
    if permission_error(Operation::StartRound, game.role_of(caller), game.status) is Some {
        permission_error(Operation::StartRound, game.role_of(caller), game.status)
    } else if round_index >= MAX_ROUNDS {
        Some(RpsError::InvalidRound)
    } else if game.commit_deadline_slots[i] != 0 {
        Some(RpsError::CommitWindowAlreadyStarted)
    } else if game.round_resolved[i] {
        Some(RpsError::RoundAlreadyResolved)
    } else if current_slot + COMMIT_PHASE_SLOTS > u64::MAX {
        Some(RpsError::MathOverflow)
    } else {
        None
    }
}

/// The record once round `round_index` was started at `current_slot`.
pub open spec fn start_round_state(game: Game, round_index: u8, current_slot: u64) -> Game {
    Game {
        commit_deadline_slots: spec_array_update(
            game.commit_deadline_slots,
            round_index as int,
            (current_slot + COMMIT_PHASE_SLOTS) as u64,
        ),
        ..game
    }
}

/// What `start_round` reports.
pub open spec fn start_round_event(game: Game, round_index: u8, current_slot: u64) -> RoundStartEvent {
    RoundStartEvent {
        game_id: game.game_id,
        round: round_index,
        start_slot: current_slot,
        commit_deadline_slot: (current_slot + COMMIT_PHASE_SLOTS) as u64,
    }
}

/// Opens the commit window of a round: commitments are accepted up to and
/// including tick `current_slot + COMMIT_PHASE_SLOTS`. A round is started
/// once, by either player or a delegate, while the match is active.
pub fn start_round(
    game: &mut Game,
    ctx: &StartRound,
    round_index: u8,
    current_slot: u64,
) -> (result: Result<RoundStartEvent, RpsError>)
    ensures
        match result {
            Ok(event) => {
                &&& start_round_error(*old(game), ctx.caller, round_index, current_slot) is None
                &&& *final(game) == start_round_state(*old(game), round_index, current_slot)
                &&& event == start_round_event(*old(game), round_index, current_slot)
            },
            Err(e) => {
                &&& start_round_error(*old(game), ctx.caller, round_index, current_slot) == Some(e)
                &&& *final(game) == *old(game)
            },
        },
        old(game).wf() ==> final(game).wf(),
{
    let role = classify_caller(game, &ctx.caller);
    match check_permission(Operation::StartRound, role, game.status) {
        Ok(_) => {},
        Err(e) => {
            return Err(e);
        },
    }
    if round_index as usize >= MAX_ROUNDS {
        return Err(RpsError::InvalidRound);
    }
    let idx = round_index as usize;
    if game.commit_deadline_slots[idx] != 0 {
        return Err(RpsError::CommitWindowAlreadyStarted);
    }
    if game.round_resolved[idx] {
        return Err(RpsError::RoundAlreadyResolved);
    }
    let deadline = match current_slot.checked_add(COMMIT_PHASE_SLOTS) {
        Some(deadline) => deadline,
        None => {
            return Err(RpsError::MathOverflow);
        },
    };
    game.commit_deadline_slots[idx] = deadline;
    proof {
        if old(game).wf() {
            lemma_start_round_keeps_wf(*old(game), ctx.caller, round_index, current_slot);
        }
    }
    Ok(
        RoundStartEvent {
            game_id: game.game_id,
            round: round_index,
            start_slot: current_slot,
            commit_deadline_slot: deadline,
        },
    )
}

/// Starting a round keeps a well-formed match well-formed.
pub proof fn lemma_start_round_keeps_wf(game: Game, caller: Identity, round_index: u8, current_slot: u64)
    requires
        game.wf(),
        start_round_error(game, caller, round_index, current_slot) is None,
    ensures
        start_round_state(game, round_index, current_slot).wf(),
{
    let after = start_round_state(game, round_index, current_slot);
    assert forall|i: int| 0 <= i < MAX_ROUNDS implies after.slot_wf(i) by {
        assert(game.slot_wf(i));
    }
}

// ---------------------------------------------------------------------------
// Committing
// ---------------------------------------------------------------------------

/// Whether `side` has committed to round `i`.
pub open spec fn side_committed(game: Game, side: CallerRole, i: int) -> bool {
    if side == CallerRole::Player1 {
        game.committed_p1[i]
    } else {
        game.committed_p2[i]
    }
}

/// Whether `side` has revealed its move of round `i`.
pub open spec fn side_revealed(game: Game, side: CallerRole, i: int) -> bool {
    if side == CallerRole::Player1 {
        game.revealed_p1[i]
    } else {
        game.revealed_p2[i]
    }
}

/// The commitment stored for `side` in round `i`.
pub open spec fn side_commitment(game: Game, side: CallerRole, i: int) -> [u8; 32] {
    if side == CallerRole::Player1 {
        game.commitments_p1[i]
    } else {
        game.commitments_p2[i]
    }
}

/// The persistent key of the player on `side`.
pub open spec fn side_key(game: Game, side: CallerRole) -> Identity {
    if side == CallerRole::Player1 {
        game.player1
    } else {
        game.player2
    }
}

/// Why `commit_move` refuses, if it does.
pub open spec fn commit_move_error(
    game: Game,
    caller: Identity,
    round_index: u8,
    current_slot: u64,
) -> Option<RpsError> {
    let i = round_index as int;
    if permission_error(Operation::CommitMove, game.role_of(caller), game.status) is Some {
        permission_error(Operation::CommitMove, game.role_of(caller), game.status)
    } else if round_index >= MAX_ROUNDS {
        Some(RpsError::InvalidRound)
    } else if game.commit_deadline_slots[i] == 0 {
        Some(RpsError::CommitWindowNotStarted)
    } else if current_slot > game.commit_deadline_slots[i] {
        Some(RpsError::CommitPhaseExpired)
    } else if side_committed(game, game.role_of(caller), i) {
        Some(RpsError::AlreadyCommitted)
    } else {
        None
    }
}

/// The record once `caller`'s side has committed to round `round_index`.
pub open spec fn commit_move_state(
    game: Game,
    caller: Identity,
    round_index: u8,
    commitment: [u8; 32],
) -> Game {
    let i = round_index as int;
    if game.role_of(caller) == CallerRole::Player1 {
        Game {
            commitments_p1: spec_array_update(game.commitments_p1, i, commitment),
            committed_p1: spec_array_update(game.committed_p1, i, true),
            ..game
        }
    } else {
        Game {
            commitments_p2: spec_array_update(game.commitments_p2, i, commitment),
            committed_p2: spec_array_update(game.committed_p2, i, true),
            ..game
        }
    }
}

/// What `commit_move` reports. `after` is the record with the commitment in.
pub open spec fn commit_move_event(after: Game, round_index: u8, current_slot: u64) -> RoundPhaseEvent {
    RoundPhaseEvent {
        game_id: after.game_id,
        round: round_index,
        current_slot,
        commit_deadline_slot: after.commit_deadline_slots[round_index as int],
        reveal_deadline_slot: 0,
        both_committed: after.both_committed(round_index as int),
    }
}

/// Stores the caller's commitment for a round. The round must have been
/// started and its window must still be open (the deadline tick included);
/// each side commits once. Nothing about the move is disclosed. The event
/// tells observers whether both commitments are now in.
pub fn commit_move(
    game: &mut Game,
    ctx: &CommitMove,
    round_index: u8,
    commitment: [u8; 32],
    current_slot: u64,
) -> (result: Result<RoundPhaseEvent, RpsError>)
    ensures
        match result {
            Ok(event) => {
                &&& commit_move_error(*old(game), ctx.player, round_index, current_slot) is None
                &&& *final(game) == commit_move_state(*old(game), ctx.player, round_index, commitment)
                &&& event == commit_move_event(*final(game), round_index, current_slot)
            },
            Err(e) => {
                &&& commit_move_error(*old(game), ctx.player, round_index, current_slot) == Some(e)
                &&& *final(game) == *old(game)
            },
        },
        old(game).wf() ==> final(game).wf(),
{
    let role = classify_caller(game, &ctx.player);
    match check_permission(Operation::CommitMove, role, game.status) {
        Ok(_) => {},
        Err(e) => {
            return Err(e);
        },
    }
    if round_index as usize >= MAX_ROUNDS {
        return Err(RpsError::InvalidRound);
    }
    let idx = round_index as usize;
    let deadline = game.commit_deadline_slots[idx];
    if deadline == 0 {
        return Err(RpsError::CommitWindowNotStarted);
    }
    if current_slot > deadline {
        return Err(RpsError::CommitPhaseExpired);
    }
    if role == CallerRole::Player1 {
        if game.committed_p1[idx] {
            return Err(RpsError::AlreadyCommitted);
        }
        game.commitments_p1[idx] = commitment;
        game.committed_p1[idx] = true;
    } else {
        if game.committed_p2[idx] {
            return Err(RpsError::AlreadyCommitted);
        }
        game.commitments_p2[idx] = commitment;
        game.committed_p2[idx] = true;
    }
    proof {
        if old(game).wf() {
            lemma_commit_move_keeps_wf(*old(game), ctx.player, round_index, commitment, current_slot);
        }
    }
    Ok(
        RoundPhaseEvent {
            game_id: game.game_id,
            round: round_index,
            current_slot,
            commit_deadline_slot: game.commit_deadline_slots[idx],
            reveal_deadline_slot: 0,
            both_committed: game.committed_p1[idx] && game.committed_p2[idx],
        },
    )
}

/// Committing keeps a well-formed match well-formed.
pub proof fn lemma_commit_move_keeps_wf(
    game: Game,
    caller: Identity,
    round_index: u8,
    commitment: [u8; 32],
    current_slot: u64,
)
    requires
        game.wf(),
        commit_move_error(game, caller, round_index, current_slot) is None,
    ensures
        commit_move_state(game, caller, round_index, commitment).wf(),
{
    let after = commit_move_state(game, caller, round_index, commitment);
    assert forall|i: int| 0 <= i < MAX_ROUNDS implies after.slot_wf(i) by {
        assert(game.slot_wf(i));
    }
}

// ---------------------------------------------------------------------------
// Resolving
// ---------------------------------------------------------------------------

/// Counting the round would overflow a tally.
pub open spec fn tally_overflows(game: Game, result: RoundResult) -> bool {
    ||| result == RoundResult::Player1Win && game.player1_wins == u8::MAX
    ||| result == RoundResult::Player2Win && game.player2_wins == u8::MAX
    ||| game.rounds_played == u8::MAX
}

/// The record once round `i` was resolved with `result`: the winner's tally
/// and the number of rounds played go up by one, the slot is closed, and the
/// match is finished if a player now has three wins or five rounds are played.
pub open spec fn resolved_state(game: Game, i: int, result: RoundResult) -> Game {
    let player1_wins = if result == RoundResult::Player1Win {
        (game.player1_wins + 1) as u8
    } else {
        game.player1_wins
    };
    let player2_wins = if result == RoundResult::Player2Win {
        (game.player2_wins + 1) as u8
    } else {
        game.player2_wins
    };
    let rounds_played = (game.rounds_played + 1) as u8;
    Game {
        player1_wins,
        player2_wins,
        rounds_played,
        round_resolved: spec_array_update(game.round_resolved, i, true),
        status: if player1_wins >= WINS_TO_FINISH || player2_wins >= WINS_TO_FINISH
            || rounds_played >= MAX_ROUNDS {
            GameStatus::Finished
        } else {
            game.status
        },
        ..game
    }
}

/// What is reported of a round once it is resolved. `after` is the record
/// with the round counted.
pub open spec fn round_result_event(after: Game, round_index: u8) -> RoundResultEvent {
    RoundResultEvent {
        game_id: after.game_id,
        round: round_index,
        player1_wins: after.player1_wins,
        player2_wins: after.player2_wins,
        rounds_played: after.rounds_played,
        status: after.status,
    }
}

/// Counts a resolved round: raises the tallies, closes the slot, and finishes
/// the match when a player has three wins or the fifth round is played.
/// Refuses, and writes nothing, if a tally would overflow.
pub(crate) fn resolve_round(game: &mut Game, round_index: u8, result: RoundResult) -> (outcome: Result<
    RoundResultEvent,
    RpsError,
>)
    requires
        round_index < MAX_ROUNDS,
    ensures
        match outcome {
            Ok(event) => {
                &&& !tally_overflows(*old(game), result)
                &&& *final(game) == resolved_state(*old(game), round_index as int, result)
                &&& event == round_result_event(*final(game), round_index)
            },
            Err(e) => {
                &&& tally_overflows(*old(game), result)
                &&& e == RpsError::MathOverflow
                &&& *final(game) == *old(game)
            },
        },
{
    let player1_wins = if result == RoundResult::Player1Win {
        match game.player1_wins.checked_add(1) {
            Some(wins) => wins,
            None => {
                return Err(RpsError::MathOverflow);
            },
        }
    } else {
        game.player1_wins
    };
    let player2_wins = if result == RoundResult::Player2Win {
        match game.player2_wins.checked_add(1) {
            Some(wins) => wins,
            None => {
                return Err(RpsError::MathOverflow);
            },
        }
    } else {
        game.player2_wins
    };
    let rounds_played = match game.rounds_played.checked_add(1) {
        Some(rounds) => rounds,
        None => {
            return Err(RpsError::MathOverflow);
        },
    };
    game.player1_wins = player1_wins;
    game.player2_wins = player2_wins;
    game.rounds_played = rounds_played;
    game.round_resolved[round_index as usize] = true;
    if player1_wins >= WINS_TO_FINISH || player2_wins >= WINS_TO_FINISH || rounds_played
        >= MAX_ROUNDS as u8 {
        game.status = GameStatus::Finished;
    }
    Ok(
        RoundResultEvent {
            game_id: game.game_id,
            round: round_index,
            player1_wins: game.player1_wins,
            player2_wins: game.player2_wins,
            rounds_played: game.rounds_played,
            status: game.status,
        },
    )
}

// ---------------------------------------------------------------------------
// Revealing
// ---------------------------------------------------------------------------

/// The record with the move of `side` in round `i` laid open.
pub open spec fn shown_state(game: Game, side: CallerRole, i: int, move_value: u8) -> Game {
    if side == CallerRole::Player1 {
        Game {
            moves_p1: spec_array_update(game.moves_p1, i, move_value),
            revealed_p1: spec_array_update(game.revealed_p1, i, true),
            ..game
        }
    } else {
        Game {
            moves_p2: spec_array_update(game.moves_p2, i, move_value),
            revealed_p2: spec_array_update(game.revealed_p2, i, true),
            ..game
        }
    }
}

/// The result of round `i`, both moves of which lie open in `game`.
pub open spec fn shown_result(game: Game, i: int) -> RoundResult {
    round_winner_spec(game.moves_p1[i], game.moves_p2[i])
}

/// Why a reveal is refused, if it is. `matches` tells whether the hash of
/// what the caller has revealed equals the commitment stored for the caller's
/// side.
pub open spec fn reveal_error(
    game: Game,
    caller: Identity,
    round_index: u8,
    move_value: u8,
    matches: bool,
) -> Option<RpsError> {
    let i = round_index as int;
    let side = game.role_of(caller);
    let shown = shown_state(game, side, i, move_value);
    if permission_error(Operation::RevealMove, game.role_of(caller), game.status) is Some {
        permission_error(Operation::RevealMove, game.role_of(caller), game.status)
    } else if round_index >= MAX_ROUNDS {
        Some(RpsError::InvalidRound)
    } else if move_value > 2 {
        Some(RpsError::InvalidMove)
    } else if !game.both_committed(i) {
        Some(RpsError::BothMustCommitFirst)
    } else if game.round_resolved[i] {
        Some(RpsError::RoundAlreadyResolved)
    } else if side_revealed(game, side, i) {
        Some(RpsError::AlreadyRevealed)
    } else if !matches {
        Some(RpsError::CommitmentMismatch)
    } else if shown.both_revealed(i) && tally_overflows(shown, shown_result(shown, i)) {
        Some(RpsError::MathOverflow)
    } else {
        None
    }
}

/// The stored commitment of the caller's side in round `round_index` is
/// exactly `digest`.
pub open spec fn digest_matches(game: Game, caller: Identity, round_index: u8, digest: [u8; 32]) -> bool {
    side_commitment(game, game.role_of(caller), round_index as int) == digest
}

/// The record after an accepted reveal: the move is stored, and if it was the
/// second of the round, the round is resolved by the round-winner rule.
pub open spec fn reveal_state(game: Game, caller: Identity, round_index: u8, move_value: u8) -> Game {
    let i = round_index as int;
    let shown = shown_state(game, game.role_of(caller), i, move_value);
    if shown.both_revealed(i) {
        resolved_state(shown, i, shown_result(shown, i))
    } else {
        shown
    }
}

/// What an accepted reveal reports: the round's result if the reveal was the
/// second of the round, nothing if the other side has yet to reveal. `after`
/// is the record after the reveal.
pub open spec fn reveal_event(after: Game, round_index: u8) -> Option<RoundResultEvent> {
    if after.both_revealed(round_index as int) {
        Some(round_result_event(after, round_index))
    } else {
        None
    }
}

/// Takes a reveal whose hash is already computed. The caller of this
/// function vouches that `digest` is the hash of the revealed move, the
/// nonce, the match, the round and the persistent key of the revealing side;
/// `reveal_move` computes it. The reveal is accepted once both sides have
/// committed, if the round is still open, the side has not revealed before
/// and `digest` equals the side's stored commitment byte for byte. The second
/// accepted reveal of a round resolves it.
pub fn reveal_with_digest(
    game: &mut Game,
    ctx: &RevealMove,
    round_index: u8,
    move_value: u8,
    digest: &[u8; 32],
) -> (result: Result<Option<RoundResultEvent>, RpsError>)
    ensures
        match result {
            Ok(event) => {
                &&& reveal_error(
                    *old(game),
                    ctx.player,
                    round_index,
                    move_value,
                    digest_matches(*old(game), ctx.player, round_index, *digest),
                ) is None
                &&& *final(game) == reveal_state(*old(game), ctx.player, round_index, move_value)
                &&& event == reveal_event(*final(game), round_index)
            },
            Err(e) => {
                &&& reveal_error(
                    *old(game),
                    ctx.player,
                    round_index,
                    move_value,
                    digest_matches(*old(game), ctx.player, round_index, *digest),
                ) == Some(e)
                &&& *final(game) == *old(game)
            },
        },
        old(game).wf() ==> final(game).wf(),
{
    let role = classify_caller(game, &ctx.player);
    match check_permission(Operation::RevealMove, role, game.status) {
        Ok(_) => {},
        Err(e) => {
            return Err(e);
        },
    }
    if round_index as usize >= MAX_ROUNDS {
        return Err(RpsError::InvalidRound);
    }
    if move_value > 2 {
        return Err(RpsError::InvalidMove);
    }
    let idx = round_index as usize;
    if !(game.committed_p1[idx] && game.committed_p2[idx]) {
        return Err(RpsError::BothMustCommitFirst);
    }
    if game.round_resolved[idx] {
        return Err(RpsError::RoundAlreadyResolved);
    }
    let mut next = *game;
    if role == CallerRole::Player1 {
        if next.revealed_p1[idx] {
            return Err(RpsError::AlreadyRevealed);
        }
        let stored = next.commitments_p1[idx];
        if check_commitment(&stored, digest).is_err() {
            return Err(RpsError::CommitmentMismatch);
        }
        next.moves_p1[idx] = move_value;
        next.revealed_p1[idx] = true;
    } else {
        if next.revealed_p2[idx] {
            return Err(RpsError::AlreadyRevealed);
        }
        let stored = next.commitments_p2[idx];
        if check_commitment(&stored, digest).is_err() {
            return Err(RpsError::CommitmentMismatch);
        }
        next.moves_p2[idx] = move_value;
        next.revealed_p2[idx] = true;
    }
    let event = if next.revealed_p1[idx] && next.revealed_p2[idx] {
        let result = round_winner(next.moves_p1[idx], next.moves_p2[idx]);
        match resolve_round(&mut next, round_index, result) {
            Ok(event) => Some(event),
            Err(e) => {
                return Err(e);
            },
        }
    } else {
        None
    };
    proof {
        if old(game).wf() {
            lemma_reveal_keeps_wf(*old(game), ctx.player, round_index, move_value);
        }
    }
    *game = next;
    Ok(event)
}

/// The hash a reveal is held against: that of the revealed move and nonce,
/// the match, the round, and the persistent key of the side the caller acts
/// for.
pub open spec fn reveal_digest(
    game: Game,
    caller: Identity,
    round_index: u8,
    move_value: u8,
    nonce: [u8; 32],
) -> Seq<u8> {
    commitment_digest(
        move_value,
        nonce,
        game.game_id,
        round_index,
        side_key(game, game.role_of(caller)),
    )
}

/// What the caller reveals hashes to the commitment stored for the caller's
/// side.
pub open spec fn reveal_matches(
    game: Game,
    caller: Identity,
    round_index: u8,
    move_value: u8,
    nonce: [u8; 32],
) -> bool {
    side_commitment(game, game.role_of(caller), round_index as int)@ == reveal_digest(
        game,
        caller,
        round_index,
        move_value,
        nonce,
    )
}

/// Reveals the caller's move of a round. The commitment is recomputed from
/// the move, the nonce, the match, the round and the persistent key of the
/// player the caller acts for (also when a delegate makes the call) and must
/// equal the stored one.
pub fn reveal_move(
    game: &mut Game,
    ctx: &RevealMove,
    round_index: u8,
    move_value: u8,
    nonce: [u8; 32],
) -> (result: Result<Option<RoundResultEvent>, RpsError>)
    ensures
        match result {
            Ok(event) => {
                &&& reveal_error(
                    *old(game),
                    ctx.player,
                    round_index,
                    move_value,
                    reveal_matches(*old(game), ctx.player, round_index, move_value, nonce),
                ) is None
                &&& *final(game) == reveal_state(*old(game), ctx.player, round_index, move_value)
                &&& event == reveal_event(*final(game), round_index)
            },
            Err(e) => {
                &&& reveal_error(
                    *old(game),
                    ctx.player,
                    round_index,
                    move_value,
                    reveal_matches(*old(game), ctx.player, round_index, move_value, nonce),
                ) == Some(e)
                &&& *final(game) == *old(game)
            },
        },
        old(game).wf() ==> final(game).wf(),
{
    let committer = if classify_caller(game, &ctx.player) == CallerRole::Player1 {
        game.player1
    } else {
        game.player2
    };
    let digest = commitment_hash(move_value, &nonce, &game.game_id, round_index, &committer);
    proof {
        let stored = side_commitment(*game, game.role_of(ctx.player), round_index as int);
        if stored@ == digest@ {
            assert(stored =~= digest);
        }
    }
    reveal_with_digest(game, ctx, round_index, move_value, &digest)
}

/// An accepted reveal keeps a well-formed match well-formed.
pub proof fn lemma_reveal_keeps_wf(game: Game, caller: Identity, round_index: u8, move_value: u8)
    requires
        game.wf(),
        reveal_error(game, caller, round_index, move_value, true) is None,
    ensures
        reveal_state(game, caller, round_index, move_value).wf(),
{
    let after = reveal_state(game, caller, round_index, move_value);
    assert forall|j: int| 0 <= j < MAX_ROUNDS implies after.slot_wf(j) by {
        assert(game.slot_wf(j));
    }
}

// ---------------------------------------------------------------------------
// Timing out
// ---------------------------------------------------------------------------

/// The result of a round whose commit window ran out: the side that alone has
/// committed takes it; if neither has, it is a draw.
pub open spec fn timeout_result(game: Game, i: int) -> RoundResult {
    if game.committed_p1[i] && !game.committed_p2[i] {
        RoundResult::Player1Win
    } else if !game.committed_p1[i] && game.committed_p2[i] {
        RoundResult::Player2Win
    } else {
        RoundResult::Draw
    }
}

/// Why `resolve_commit_timeout` refuses, if it does.
pub open spec fn resolve_commit_timeout_error(game: Game, round_index: u8, current_slot: u64) -> Option<
    RpsError,
> {
    let i = round_index as int;
    if permission_error(Operation::ResolveCommitTimeout, CallerRole::Neither, game.status) is Some {
        permission_error(Operation::ResolveCommitTimeout, CallerRole::Neither, game.status)
    } else if round_index >= MAX_ROUNDS {
        Some(RpsError::InvalidRound)
    } else if game.commit_deadline_slots[i] == 0 {
        Some(RpsError::CommitWindowNotStarted)
    } else if current_slot <= game.commit_deadline_slots[i] {
        Some(RpsError::CommitPhaseNotExpired)
    } else if game.round_resolved[i] {
        Some(RpsError::RoundAlreadyResolved)
    } else if game.both_committed(i) {
        Some(RpsError::BothCommittedNoTimeout)
    } else if tally_overflows(game, timeout_result(game, i)) {
        Some(RpsError::MathOverflow)
    } else {
        None
    }
}

/// The record once the timed-out round `round_index` was resolved.
pub open spec fn resolve_commit_timeout_state(game: Game, round_index: u8) -> Game {
    resolved_state(game, round_index as int, timeout_result(game, round_index as int))
}

/// Resolves a round whose commit window has run out with at most one
/// commitment in. Anyone may call it, strictly after the deadline tick. The
/// side that alone has committed wins the round; with no commitment the round
/// is a draw. Once both sides have committed the round can only be resolved by
/// their reveals.
pub fn resolve_commit_timeout(
    game: &mut Game,
    ctx: &ResolveCommitTimeout,
    round_index: u8,
    current_slot: u64,
) -> (result: Result<RoundResultEvent, RpsError>)
    ensures
        match result {
            Ok(event) => {
                &&& resolve_commit_timeout_error(*old(game), round_index, current_slot) is None
                &&& *final(game) == resolve_commit_timeout_state(*old(game), round_index)
                &&& event == round_result_event(*final(game), round_index)
            },
            Err(e) => {
                &&& resolve_commit_timeout_error(*old(game), round_index, current_slot) == Some(e)
                &&& *final(game) == *old(game)
            },
        },
        old(game).wf() ==> final(game).wf(),
{
    match check_permission(Operation::ResolveCommitTimeout, CallerRole::Neither, game.status) {
        Ok(_) => {},
        Err(e) => {
            return Err(e);
        },
    }
    if round_index as usize >= MAX_ROUNDS {
        return Err(RpsError::InvalidRound);
    }
    let idx = round_index as usize;
    if game.commit_deadline_slots[idx] == 0 {
        return Err(RpsError::CommitWindowNotStarted);
    }
    if current_slot <= game.commit_deadline_slots[idx] {
        return Err(RpsError::CommitPhaseNotExpired);
    }
    if game.round_resolved[idx] {
        return Err(RpsError::RoundAlreadyResolved);
    }
    let c1 = game.committed_p1[idx];
    let c2 = game.committed_p2[idx];
    if c1 && c2 {
        return Err(RpsError::BothCommittedNoTimeout);
    }
    let result = if c1 && !c2 {
        RoundResult::Player1Win
    } else if !c1 && c2 {
        RoundResult::Player2Win
    } else {
        RoundResult::Draw
    };
    proof {
        if old(game).wf() {
            lemma_resolve_commit_timeout_keeps_wf(*old(game), round_index, current_slot);
        }
    }
    resolve_round(game, round_index, result)
}

/// Resolving a timed-out round keeps a well-formed match well-formed.
pub proof fn lemma_resolve_commit_timeout_keeps_wf(game: Game, round_index: u8, current_slot: u64)
    requires
        game.wf(),
        resolve_commit_timeout_error(game, round_index, current_slot) is None,
    ensures
        resolve_commit_timeout_state(game, round_index).wf(),
{
    let after = resolve_commit_timeout_state(game, round_index);
    assert forall|j: int| 0 <= j < MAX_ROUNDS implies after.slot_wf(j) by {
        assert(game.slot_wf(j));
    }
}

} // verus!
