use rps_game::accounts::AuthorizeSessionSigner;
use rps_game::accounts::CommitMove;
use rps_game::accounts::CreateGame;
use rps_game::accounts::JoinGame;
use rps_game::accounts::ResolveCommitTimeout;
use rps_game::accounts::RevealMove;
use rps_game::accounts::StartRound;
use rps_game::commitment::commitment_hash;
use rps_game::events::RoundPhaseEvent;
use rps_game::events::RoundResultEvent;
use rps_game::events::RoundStartEvent;
use rps_game::identity::Identity;
use rps_game::rounds::commit_move;
use rps_game::rounds::resolve_commit_timeout;
use rps_game::rounds::reveal_move;
use rps_game::rounds::reveal_with_digest;
use rps_game::rounds::start_round;
use rps_game::session::authorize_session_signer;
use rps_game::session::create_game;
use rps_game::session::join_game;
use rps_game::state::Game;
use rps_game::state::GameStatus;
use rps_game::state::HouseVault;
use rps_game::state::RpsError;
use rps_game::state::COMMIT_PHASE_SLOTS;

const GAME_ID: [u8; 32] = [9u8; 32];
const NONCE_1: [u8; 32] = [21u8; 32];
const NONCE_2: [u8; 32] = [22u8; 32];
const BET: u64 = 100_000_000;

fn round_key(n: u8) -> Identity {
    Identity::new([n; 32])
}

fn creator() -> Identity {
    round_key(1)
}

fn joiner() -> Identity {
    round_key(2)
}

fn stranger() -> Identity {
    round_key(66)
}

fn waiting_match() -> Game {
    let vault = HouseVault { bump: 0, admin: round_key(100), house_fee_bps: 100 };
    let ctx = CreateGame { player1: creator(), house_vault: round_key(50), bump: 254 };
    create_game(&ctx, &vault, GAME_ID, BET, 1_000, 5_000).unwrap().0
}

fn active_match() -> Game {
    let mut game = waiting_match();
    join_game(&mut game, &JoinGame { player2: joiner(), house_vault: round_key(50) }).unwrap();
    game
}

fn hash_for(game: &Game, player: Identity, round: u8, mv: u8, nonce: [u8; 32]) -> [u8; 32] {
    commitment_hash(mv, &nonce, &game.game_id, round, &player)
}

/// Starts `round` at `slot` and has both players commit to the given moves.
fn both_commit(game: &mut Game, round: u8, slot: u64, m1: u8, m2: u8) {
    start_round(game, &StartRound { caller: creator() }, round, slot).unwrap();
    let c1 = hash_for(game, creator(), round, m1, NONCE_1);
    let c2 = hash_for(game, joiner(), round, m2, NONCE_2);
    commit_move(game, &CommitMove { player: creator() }, round, c1, slot).unwrap();
    commit_move(game, &CommitMove { player: joiner() }, round, c2, slot).unwrap();
}

/// Plays `round` through with the given moves and returns what the second
/// reveal reports.
fn play_round(game: &mut Game, round: u8, slot: u64, m1: u8, m2: u8) -> RoundResultEvent {
    both_commit(game, round, slot, m1, m2);
    let first = reveal_move(game, &RevealMove { player: creator() }, round, m1, NONCE_1);
    assert_eq!(first, Ok(None));
    reveal_move(game, &RevealMove { player: joiner() }, round, m2, NONCE_2).unwrap().unwrap()
}

#[test]
fn commit_window_is_seventy_five_ticks() {
    assert_eq!(COMMIT_PHASE_SLOTS, 75);
}

#[test]
fn start_round_sets_the_deadline_once() {
    let mut game = active_match();
    let event = start_round(&mut game, &StartRound { caller: joiner() }, 2, 10_000);
    assert_eq!(
        event,
        Ok(RoundStartEvent {
            game_id: GAME_ID,
            round: 2,
            start_slot: 10_000,
            commit_deadline_slot: 10_075,
        })
    );
    assert_eq!(game.commit_deadline_slots, [0, 0, 10_075, 0, 0]);

    let before = game;
    let again = start_round(&mut game, &StartRound { caller: creator() }, 2, 20_000);
    assert_eq!(again, Err(RpsError::CommitWindowAlreadyStarted));
    assert_eq!(game, before);
}

#[test]
fn start_round_refusals() {
    let mut game = active_match();
    let before = game;
    assert_eq!(
        start_round(&mut game, &StartRound { caller: stranger() }, 0, 1),
        Err(RpsError::NotAPlayer)
    );
    assert_eq!(
        start_round(&mut game, &StartRound { caller: creator() }, 5, 1),
        Err(RpsError::InvalidRound)
    );
    assert_eq!(
        start_round(&mut game, &StartRound { caller: creator() }, 255, 1),
        Err(RpsError::InvalidRound)
    );
    assert_eq!(
        start_round(&mut game, &StartRound { caller: creator() }, 0, u64::MAX - 74),
        Err(RpsError::MathOverflow)
    );
    assert_eq!(game, before);
    assert_eq!(
        start_round(&mut game, &StartRound { caller: creator() }, 0, u64::MAX - 75).unwrap().commit_deadline_slot,
        u64::MAX
    );

    let mut waiting = waiting_match();
    assert_eq!(
        start_round(&mut waiting, &StartRound { caller: creator() }, 0, 1),
        Err(RpsError::GameNotActive)
    );
    assert_eq!(
        start_round(&mut waiting, &StartRound { caller: stranger() }, 9, 1),
        Err(RpsError::NotAPlayer)
    );
}

#[test]
fn start_round_refuses_a_resolved_round_without_deadline() {
    let mut game = active_match();
    game.round_resolved[1] = true;
    let before = game;
    assert_eq!(
        start_round(&mut game, &StartRound { caller: creator() }, 1, 1),
        Err(RpsError::RoundAlreadyResolved)
    );
    assert_eq!(game, before);
}

#[test]
fn commit_stores_the_hash_and_reports_the_phase() {
    let mut game = active_match();
    start_round(&mut game, &StartRound { caller: creator() }, 0, 100).unwrap();
    let first = commit_move(&mut game, &CommitMove { player: joiner() }, 0, [7u8; 32], 120);
    assert_eq!(
        first,
        Ok(RoundPhaseEvent {
            game_id: GAME_ID,
            round: 0,
            current_slot: 120,
            commit_deadline_slot: 175,
            reveal_deadline_slot: 0,
            both_committed: false,
        })
    );
    assert_eq!(game.commitments_p2[0], [7u8; 32]);
    assert_eq!(game.committed_p2, [true, false, false, false, false]);
    assert_eq!(game.committed_p1, [false; 5]);
    assert_eq!(game.commitments_p1, [[0u8; 32]; 5]);

    let second = commit_move(&mut game, &CommitMove { player: creator() }, 0, [8u8; 32], 175);
    assert_eq!(
        second,
        Ok(RoundPhaseEvent {
            game_id: GAME_ID,
            round: 0,
            current_slot: 175,
            commit_deadline_slot: 175,
            reveal_deadline_slot: 0,
            both_committed: true,
        })
    );
    assert_eq!(game.commitments_p1[0], [8u8; 32]);
    assert_eq!(game.commitments_p2[0], [7u8; 32]);
    assert_eq!(game.status, GameStatus::Active);
    assert_eq!(game.rounds_played, 0);
}

#[test]
fn commit_refusals() {
    let mut game = active_match();
    let before = game;
    assert_eq!(
        commit_move(&mut game, &CommitMove { player: stranger() }, 0, [1u8; 32], 1),
        Err(RpsError::NotAPlayer)
    );
    assert_eq!(
        commit_move(&mut game, &CommitMove { player: creator() }, 5, [1u8; 32], 1),
        Err(RpsError::InvalidRound)
    );
    assert_eq!(
        commit_move(&mut game, &CommitMove { player: creator() }, 0, [1u8; 32], 1),
        Err(RpsError::CommitWindowNotStarted)
    );
    assert_eq!(game, before);

    start_round(&mut game, &StartRound { caller: creator() }, 0, 100).unwrap();
    let started = game;
    assert_eq!(
        commit_move(&mut game, &CommitMove { player: creator() }, 0, [1u8; 32], 176),
        Err(RpsError::CommitPhaseExpired)
    );
    assert_eq!(game, started);
    commit_move(&mut game, &CommitMove { player: creator() }, 0, [1u8; 32], 175).unwrap();
    let committed = game;
    assert_eq!(
        commit_move(&mut game, &CommitMove { player: creator() }, 0, [2u8; 32], 150),
        Err(RpsError::AlreadyCommitted)
    );
    assert_eq!(game, committed);
    assert_eq!(game.commitments_p1[0], [1u8; 32]);

    let mut waiting = waiting_match();
    assert_eq!(
        commit_move(&mut waiting, &CommitMove { player: creator() }, 0, [1u8; 32], 1),
        Err(RpsError::GameNotActive)
    );
}

#[test]
fn reveal_round_trip_succeeds() {
    let mut game = active_match();
    both_commit(&mut game, 0, 100, 1, 0);
    assert_eq!(reveal_move(&mut game, &RevealMove { player: creator() }, 0, 1, NONCE_1), Ok(None));
    assert_eq!(game.moves_p1[0], 1);
    assert_eq!(game.revealed_p1, [true, false, false, false, false]);
    assert_eq!(game.revealed_p2, [false; 5]);
    assert_eq!(game.round_resolved, [false; 5]);
    let result = reveal_move(&mut game, &RevealMove { player: joiner() }, 0, 0, NONCE_2);
    assert_eq!(
        result,
        Ok(Some(RoundResultEvent {
            game_id: GAME_ID,
            round: 0,
            player1_wins: 1,
            player2_wins: 0,
            rounds_played: 1,
            status: GameStatus::Active,
        }))
    );
    assert_eq!(game.moves_p2[0], 0);
    assert_eq!(game.round_resolved, [true, false, false, false, false]);
    assert_eq!((game.player1_wins, game.player2_wins, game.rounds_played), (1, 0, 1));
}

#[test]
fn reveal_has_no_deadline() {
    let mut game = active_match();
    both_commit(&mut game, 0, 100, 2, 1);
    assert_eq!(reveal_move(&mut game, &RevealMove { player: joiner() }, 0, 1, NONCE_2), Ok(None));
    let result = reveal_move(&mut game, &RevealMove { player: creator() }, 0, 2, NONCE_1);
    assert_eq!(result.unwrap().unwrap().player1_wins, 1);
}

#[test]
fn reveal_rejects_any_changed_field() {
    let mut game = active_match();
    both_commit(&mut game, 3, 100, 1, 2);
    let before = game;
    let mismatch = Err(RpsError::CommitmentMismatch);

    assert_eq!(reveal_move(&mut game, &RevealMove { player: creator() }, 3, 0, NONCE_1), mismatch);
    assert_eq!(reveal_move(&mut game, &RevealMove { player: creator() }, 3, 2, NONCE_1), mismatch);
    let mut nonce = NONCE_1;
    nonce[0] ^= 1;
    assert_eq!(reveal_move(&mut game, &RevealMove { player: creator() }, 3, 1, nonce), mismatch);
    assert_eq!(reveal_move(&mut game, &RevealMove { player: creator() }, 3, 1, NONCE_2), mismatch);
    assert_eq!(game, before);

    // A commitment made for another round, another match or another player
    // does not open this one.
    let for_other_round = hash_for(&game, creator(), 2, 1, NONCE_1);
    let mut other_id = GAME_ID;
    other_id[7] ^= 4;
    let for_other_match = commitment_hash(1, &NONCE_1, &other_id, 3, &creator());
    let for_other_player = hash_for(&game, joiner(), 3, 1, NONCE_1);
    for stored in [for_other_round, for_other_match, for_other_player] {
        let mut tampered = before;
        tampered.commitments_p1[3] = stored;
        let unchanged = tampered;
        assert_eq!(
            reveal_move(&mut tampered, &RevealMove { player: creator() }, 3, 1, NONCE_1),
            mismatch
        );
        assert_eq!(tampered, unchanged);
    }

    assert_eq!(reveal_move(&mut game, &RevealMove { player: creator() }, 3, 1, NONCE_1), Ok(None));
}

#[test]
fn reveal_refusals() {
    let mut game = active_match();
    start_round(&mut game, &StartRound { caller: creator() }, 0, 100).unwrap();
    let c1 = hash_for(&game, creator(), 0, 0, NONCE_1);
    commit_move(&mut game, &CommitMove { player: creator() }, 0, c1, 100).unwrap();
    let before = game;
    assert_eq!(
        reveal_move(&mut game, &RevealMove { player: creator() }, 0, 0, NONCE_1),
        Err(RpsError::BothMustCommitFirst)
    );
    assert_eq!(
        reveal_move(&mut game, &RevealMove { player: stranger() }, 0, 0, NONCE_1),
        Err(RpsError::NotAPlayer)
    );
    assert_eq!(
        reveal_move(&mut game, &RevealMove { player: creator() }, 5, 0, NONCE_1),
        Err(RpsError::InvalidRound)
    );
    assert_eq!(
        reveal_move(&mut game, &RevealMove { player: creator() }, 0, 3, NONCE_1),
        Err(RpsError::InvalidMove)
    );
    assert_eq!(
        reveal_move(&mut game, &RevealMove { player: creator() }, 9, 3, NONCE_1),
        Err(RpsError::InvalidRound)
    );
    assert_eq!(game, before);

    let c2 = hash_for(&game, joiner(), 0, 2, NONCE_2);
    commit_move(&mut game, &CommitMove { player: joiner() }, 0, c2, 100).unwrap();
    reveal_move(&mut game, &RevealMove { player: creator() }, 0, 0, NONCE_1).unwrap();
    let revealed = game;
    assert_eq!(
        reveal_move(&mut game, &RevealMove { player: creator() }, 0, 0, NONCE_1),
        Err(RpsError::AlreadyRevealed)
    );
    assert_eq!(
        reveal_move(&mut game, &RevealMove { player: creator() }, 0, 1, NONCE_1),
        Err(RpsError::AlreadyRevealed)
    );
    assert_eq!(game, revealed);

    reveal_move(&mut game, &RevealMove { player: joiner() }, 0, 2, NONCE_2).unwrap();
    let resolved = game;
    assert_eq!(
        reveal_move(&mut game, &RevealMove { player: joiner() }, 0, 2, NONCE_2),
        Err(RpsError::RoundAlreadyResolved)
    );
    assert_eq!(game, resolved);

    let mut waiting = waiting_match();
    assert_eq!(
        reveal_move(&mut waiting, &RevealMove { player: creator() }, 0, 0, NONCE_1),
        Err(RpsError::GameNotActive)
    );
}

#[test]
fn reveal_with_digest_is_exact_about_the_digest() {
    let mut game = active_match();
    start_round(&mut game, &StartRound { caller: creator() }, 1, 100).unwrap();
    commit_move(&mut game, &CommitMove { player: creator() }, 1, [0xaa; 32], 100).unwrap();
    commit_move(&mut game, &CommitMove { player: joiner() }, 1, [0xbb; 32], 100).unwrap();
    let before = game;
    assert_eq!(
        reveal_with_digest(&mut game, &RevealMove { player: creator() }, 1, 2, &[0xbb; 32]),
        Err(RpsError::CommitmentMismatch)
    );
    assert_eq!(game, before);
    assert_eq!(
        reveal_with_digest(&mut game, &RevealMove { player: creator() }, 1, 2, &[0xaa; 32]),
        Ok(None)
    );
    assert_eq!(
        reveal_with_digest(&mut game, &RevealMove { player: joiner() }, 1, 0, &[0xbb; 32]),
        Ok(Some(RoundResultEvent {
            game_id: GAME_ID,
            round: 1,
            player1_wins: 0,
            player2_wins: 1,
            rounds_played: 1,
            status: GameStatus::Active,
        }))
    );
    assert_eq!(game.moves_p1, [0, 2, 0, 0, 0]);
    assert_eq!(game.moves_p2, [0, 0, 0, 0, 0]);
    assert_eq!(game.revealed_p2, [false, true, false, false, false]);
}

#[test]
fn reveal_overflow_leaves_the_record_alone() {
    let mut game = active_match();
    both_commit(&mut game, 0, 100, 0, 2);
    reveal_move(&mut game, &RevealMove { player: joiner() }, 0, 2, NONCE_2).unwrap();
    game.player1_wins = 255;
    let before = game;
    assert_eq!(
        reveal_move(&mut game, &RevealMove { player: creator() }, 0, 0, NONCE_1),
        Err(RpsError::MathOverflow)
    );
    assert_eq!(game, before);

    game.player1_wins = 0;
    game.rounds_played = 255;
    let before = game;
    assert_eq!(
        reveal_move(&mut game, &RevealMove { player: creator() }, 0, 0, NONCE_1),
        Err(RpsError::MathOverflow)
    );
    assert_eq!(game, before);
}

#[test]
fn delegate_acts_for_its_player_and_hash_uses_the_player_key() {
    let mut game = active_match();
    let delegate_1 = round_key(31);
    let delegate_2 = round_key(32);
    authorize_session_signer(&mut game, &AuthorizeSessionSigner { player: creator() }, delegate_1).unwrap();
    authorize_session_signer(&mut game, &AuthorizeSessionSigner { player: joiner() }, delegate_2).unwrap();

    start_round(&mut game, &StartRound { caller: delegate_2 }, 0, 100).unwrap();
    let c1 = hash_for(&game, creator(), 0, 1, NONCE_1);
    let c2 = hash_for(&game, joiner(), 0, 1, NONCE_2);
    commit_move(&mut game, &CommitMove { player: delegate_1 }, 0, c1, 100).unwrap();
    assert_eq!(game.committed_p1[0], true);
    assert_eq!(
        commit_move(&mut game, &CommitMove { player: creator() }, 0, c1, 100),
        Err(RpsError::AlreadyCommitted)
    );
    commit_move(&mut game, &CommitMove { player: delegate_2 }, 0, c2, 100).unwrap();
    assert_eq!(game.committed_p2[0], true);

    assert_eq!(reveal_move(&mut game, &RevealMove { player: delegate_1 }, 0, 1, NONCE_1), Ok(None));
    let result = reveal_move(&mut game, &RevealMove { player: delegate_2 }, 0, 1, NONCE_2);
    assert_eq!(result.unwrap().unwrap().rounds_played, 1);
    assert_eq!((game.player1_wins, game.player2_wins), (0, 0));
}

#[test]
fn commitment_made_with_the_delegate_key_does_not_open() {
    let mut game = active_match();
    let delegate_1 = round_key(31);
    authorize_session_signer(&mut game, &AuthorizeSessionSigner { player: creator() }, delegate_1).unwrap();
    start_round(&mut game, &StartRound { caller: creator() }, 0, 100).unwrap();
    let with_delegate_key = hash_for(&game, delegate_1, 0, 1, NONCE_1);
    let c2 = hash_for(&game, joiner(), 0, 1, NONCE_2);
    commit_move(&mut game, &CommitMove { player: delegate_1 }, 0, with_delegate_key, 100).unwrap();
    commit_move(&mut game, &CommitMove { player: joiner() }, 0, c2, 100).unwrap();
    assert_eq!(
        reveal_move(&mut game, &RevealMove { player: delegate_1 }, 0, 1, NONCE_1),
        Err(RpsError::CommitmentMismatch)
    );
}

#[test]
fn timeout_credits_the_only_committer() {
    let mut game = active_match();
    start_round(&mut game, &StartRound { caller: creator() }, 0, 100).unwrap();
    let c1 = hash_for(&game, creator(), 0, 0, NONCE_1);
    commit_move(&mut game, &CommitMove { player: creator() }, 0, c1, 130).unwrap();
    let before = game;
    assert_eq!(
        resolve_commit_timeout(&mut game, &ResolveCommitTimeout { caller: stranger() }, 0, 175),
        Err(RpsError::CommitPhaseNotExpired)
    );
    assert_eq!(game, before);
    let event = resolve_commit_timeout(&mut game, &ResolveCommitTimeout { caller: stranger() }, 0, 176);
    assert_eq!(
        event,
        Ok(RoundResultEvent {
            game_id: GAME_ID,
            round: 0,
            player1_wins: 1,
            player2_wins: 0,
            rounds_played: 1,
            status: GameStatus::Active,
        })
    );
    assert_eq!(game.round_resolved, [true, false, false, false, false]);

    start_round(&mut game, &StartRound { caller: creator() }, 1, 200).unwrap();
    let c2 = hash_for(&game, joiner(), 1, 0, NONCE_2);
    commit_move(&mut game, &CommitMove { player: joiner() }, 1, c2, 200).unwrap();
    let event = resolve_commit_timeout(&mut game, &ResolveCommitTimeout { caller: creator() }, 1, 1_000_000);
    assert_eq!(
        event,
        Ok(RoundResultEvent {
            game_id: GAME_ID,
            round: 1,
            player1_wins: 1,
            player2_wins: 1,
            rounds_played: 2,
            status: GameStatus::Active,
        })
    );
}

#[test]
fn timeout_with_no_commit_is_a_draw() {
    let mut game = active_match();
    start_round(&mut game, &StartRound { caller: creator() }, 4, 100).unwrap();
    let event = resolve_commit_timeout(&mut game, &ResolveCommitTimeout { caller: joiner() }, 4, 176);
    assert_eq!(
        event,
        Ok(RoundResultEvent {
            game_id: GAME_ID,
            round: 4,
            player1_wins: 0,
            player2_wins: 0,
            rounds_played: 1,
            status: GameStatus::Active,
        })
    );
    assert_eq!(game.round_resolved, [false, false, false, false, true]);
}

#[test]
fn timeout_is_forbidden_once_both_committed() {
    let mut game = active_match();
    both_commit(&mut game, 0, 100, 0, 2);
    let before = game;
    assert_eq!(
        resolve_commit_timeout(&mut game, &ResolveCommitTimeout { caller: creator() }, 0, 176),
        Err(RpsError::BothCommittedNoTimeout)
    );
    assert_eq!(
        resolve_commit_timeout(&mut game, &ResolveCommitTimeout { caller: creator() }, 0, u64::MAX),
        Err(RpsError::BothCommittedNoTimeout)
    );
    assert_eq!(game, before);
    // Only the reveals move the round on.
    assert_eq!(reveal_move(&mut game, &RevealMove { player: creator() }, 0, 0, NONCE_1), Ok(None));
    let result = reveal_move(&mut game, &RevealMove { player: joiner() }, 0, 2, NONCE_2);
    assert_eq!(result.unwrap().unwrap().player1_wins, 1);
}

#[test]
fn timeout_refusals() {
    let mut game = active_match();
    let before = game;
    assert_eq!(
        resolve_commit_timeout(&mut game, &ResolveCommitTimeout { caller: creator() }, 5, 1),
        Err(RpsError::InvalidRound)
    );
    assert_eq!(
        resolve_commit_timeout(&mut game, &ResolveCommitTimeout { caller: creator() }, 0, 1),
        Err(RpsError::CommitWindowNotStarted)
    );
    assert_eq!(game, before);
    start_round(&mut game, &StartRound { caller: creator() }, 0, 100).unwrap();
    resolve_commit_timeout(&mut game, &ResolveCommitTimeout { caller: creator() }, 0, 176).unwrap();
    let resolved = game;
    assert_eq!(
        resolve_commit_timeout(&mut game, &ResolveCommitTimeout { caller: creator() }, 0, 177),
        Err(RpsError::RoundAlreadyResolved)
    );
    assert_eq!(game, resolved);

    let mut waiting = waiting_match();
    assert_eq!(
        resolve_commit_timeout(&mut waiting, &ResolveCommitTimeout { caller: creator() }, 0, 1),
        Err(RpsError::GameNotActive)
    );

    let mut overflow = active_match();
    start_round(&mut overflow, &StartRound { caller: creator() }, 0, 100).unwrap();
    overflow.rounds_played = 255;
    let before = overflow;
    assert_eq!(
        resolve_commit_timeout(&mut overflow, &ResolveCommitTimeout { caller: creator() }, 0, 176),
        Err(RpsError::MathOverflow)
    );
    assert_eq!(overflow, before);
}

#[test]
fn three_straight_wins_finish_the_match() {
    let mut game = active_match();
    for round in 0..3u8 {
        let event = play_round(&mut game, round, 1_000 * (round as u64 + 1), 0, 2);
        assert_eq!(event.player1_wins, round + 1);
        assert_eq!(event.player2_wins, 0);
        assert_eq!(event.rounds_played, round + 1);
        let expected = if round == 2 { GameStatus::Finished } else { GameStatus::Active };
        assert_eq!(event.status, expected);
    }
    assert_eq!(game.status, GameStatus::Finished);
    assert_eq!(game.player1_wins, 3);
    assert_eq!(game.player2_wins, 0);
    assert_eq!(game.rounds_played, 3);
    assert_eq!(game.round_resolved, [true, true, true, false, false]);

    // Round four cannot be reached.
    let before = game;
    assert_eq!(
        start_round(&mut game, &StartRound { caller: creator() }, 3, 9_000),
        Err(RpsError::GameNotActive)
    );
    assert_eq!(
        commit_move(&mut game, &CommitMove { player: creator() }, 3, [1u8; 32], 9_000),
        Err(RpsError::GameNotActive)
    );
    assert_eq!(
        reveal_move(&mut game, &RevealMove { player: creator() }, 3, 0, NONCE_1),
        Err(RpsError::GameNotActive)
    );
    assert_eq!(
        resolve_commit_timeout(&mut game, &ResolveCommitTimeout { caller: creator() }, 3, 9_000),
        Err(RpsError::GameNotActive)
    );
    assert_eq!(game, before);
}

#[test]
fn player_two_can_win_in_four_rounds() {
    let mut game = active_match();
    play_round(&mut game, 0, 100, 0, 1);
    play_round(&mut game, 1, 200, 1, 0);
    play_round(&mut game, 2, 300, 2, 0);
    assert_eq!(game.status, GameStatus::Active);
    let last = play_round(&mut game, 3, 400, 1, 2);
    assert_eq!(
        last,
        RoundResultEvent {
            game_id: GAME_ID,
            round: 3,
            player1_wins: 1,
            player2_wins: 3,
            rounds_played: 4,
            status: GameStatus::Finished,
        }
    );
}

#[test]
fn five_rounds_finish_the_match_whatever_the_tally() {
    let mut game = active_match();
    for round in 0..5u8 {
        let event = play_round(&mut game, round, 100 * (round as u64 + 1), 1, 1);
        assert_eq!(event.rounds_played, round + 1);
        let expected = if round == 4 { GameStatus::Finished } else { GameStatus::Active };
        assert_eq!(event.status, expected);
    }
    assert_eq!((game.player1_wins, game.player2_wins, game.rounds_played), (0, 0, 5));
    assert_eq!(game.status, GameStatus::Finished);
}

#[test]
fn rounds_may_be_played_out_of_order() {
    let mut game = active_match();
    play_round(&mut game, 4, 100, 0, 2);
    play_round(&mut game, 1, 200, 0, 1);
    assert_eq!(game.round_resolved, [false, true, false, false, true]);
    assert_eq!((game.player1_wins, game.player2_wins, game.rounds_played), (1, 1, 2));
}
