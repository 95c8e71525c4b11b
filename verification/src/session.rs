//! The life of a match: created, joined, played, and then settled, called
//! off, or closed because nobody joined.
//!
//! Every operation checks all it has to check before it writes anything or
//! asks for any transfer, so a refused call leaves the record as it found it
//! and moves no funds. Amounts are always taken from the record, never from
//! the caller.

use vstd::prelude::*;
use crate::accounts::AuthorizeSessionSigner;
use crate::accounts::CancelGame;
use crate::accounts::CancelGameIfTimedOut;
use crate::accounts::CreateGame;
use crate::accounts::ForfeitGame;
use crate::accounts::JoinGame;
use crate::accounts::SettleGame;
use crate::escrow::transfer_with_signer;
use crate::escrow::vault_transfer;
use crate::escrow::Custody;
use crate::escrow::Transfer;
use crate::events::GameCancelledEvent;
use crate::events::GameForfeitEvent;
use crate::identity::Identity;
use crate::permissions::check_permission;
use crate::permissions::permission_error;
use crate::permissions::Operation;
use crate::roles::classify_player;
use crate::settlement::cancel_refunds;
use crate::settlement::cancel_refunds_of;
use crate::settlement::compute_settlement;
use crate::settlement::settlement_of;
use crate::settlement::settlement_overflows;
use crate::settlement::settlement_transfers;
use crate::state::CallerRole;
use crate::state::Game;
use crate::state::GameStatus;
use crate::state::HouseVault;
use crate::state::RpsError;
use crate::state::MAX_ROUNDS;
use crate::state::MIN_BET_LAMPORTS;
use crate::state::TIMEOUT_SLOTS;
use crate::state::WINS_TO_FINISH;

verus! {

/// What ending a match for good calls for: the payments out of the pot, in
/// order, and the account that the storage deposit of the destroyed record is
/// credited to.
#[derive(PartialEq, Eq, Debug)]
pub struct Closing {
    pub transfers: Vec<Transfer>,
    pub rent_to: Custody,
}

// ---------------------------------------------------------------------------
// Creating
// ---------------------------------------------------------------------------

/// Why the stakes of a match are refused, if they are.
pub open spec fn stakes_error(bet_amount: u64, entry_fee: u64) -> Option<RpsError> {
    if bet_amount == 0 {
        Some(RpsError::InvalidBetAmount)
    } else if entry_fee == 0 {
        Some(RpsError::InvalidEntryFee)
    } else if bet_amount < MIN_BET_LAMPORTS {
        Some(RpsError::BetTooLow)
    } else {
        None
    }
}

/// Checks the stakes of a match: a bet of at least the minimum and an entry
/// fee above zero.
pub fn check_stakes(bet_amount: u64, entry_fee: u64) -> (result: Result<(), RpsError>)
    ensures
        match result {
            Ok(_) => stakes_error(bet_amount, entry_fee) is None,
            Err(e) => stakes_error(bet_amount, entry_fee) == Some(e),
        },
{
    if bet_amount == 0 {
        return Err(RpsError::InvalidBetAmount);
    }
    if entry_fee == 0 {
        return Err(RpsError::InvalidEntryFee);
    }
    if bet_amount < MIN_BET_LAMPORTS {
        return Err(RpsError::BetTooLow);
    }
    Ok(())
}

/// `game` is the record of a match that `ctx.player1` has just created with
/// the given identifier and stakes at tick `current_slot`: it waits for a
/// second player, holds one bet, carries the fee rate of `vault`, and all its
/// tallies and round slots are empty.
pub open spec fn is_created(
    game: Game,
    ctx: CreateGame,
    vault: HouseVault,
    game_id: [u8; 32],
    bet_amount: u64,
    entry_fee: u64,
    current_slot: u64,
) -> bool {
    &&& game.bump == ctx.bump
    &&& game.game_id == game_id
    &&& game.player1 == ctx.player1
    &&& game.player2.is_unset_spec()
    &&& game.house_vault == ctx.house_vault
    &&& game.session_p1.is_unset_spec()
    &&& game.session_p2.is_unset_spec()
    &&& game.bet_amount == bet_amount
    &&& game.entry_fee == entry_fee
    &&& game.total_pot == bet_amount
    &&& game.house_fee_bps == vault.house_fee_bps
    &&& game.rounds_played == 0
    &&& game.player1_wins == 0
    &&& game.player2_wins == 0
    &&& game.status == GameStatus::WaitingForPlayer2
    &&& game.created_slot == current_slot
    &&& forall|i: int| 0 <= i < MAX_ROUNDS ==> game.slot_empty(i)
}

/// What a player pays on taking a seat: the bet into the match's vault and
/// the entry fee to the house.
pub open spec fn entry_transfers(player: Custody, bet_amount: u64, entry_fee: u64) -> Seq<Transfer> {
    seq![
        Transfer { from: player, to: Custody::GameVault, amount: bet_amount },
        Transfer { from: player, to: Custody::HouseVault, amount: entry_fee },
    ]
}

/// Creates a match. The creator stakes `bet_amount` and pays `entry_fee`;
/// the second player will owe the same. The fee rate is copied from `vault`
/// and stays with the match whatever the administrator sets later.
pub fn create_game(
    ctx: &CreateGame,
    vault: &HouseVault,
    game_id: [u8; 32],
    bet_amount: u64,
    entry_fee: u64,
    current_slot: u64,
) -> (result: Result<(Game, Vec<Transfer>), RpsError>)
    ensures
        match result {
            Ok((game, transfers)) => {
                &&& stakes_error(bet_amount, entry_fee) is None
                &&& is_created(game, *ctx, *vault, game_id, bet_amount, entry_fee, current_slot)
                &&& transfers@ == entry_transfers(Custody::Player1, bet_amount, entry_fee)
                &&& vault.wf() ==> game.wf()
            },
            Err(e) => stakes_error(bet_amount, entry_fee) == Some(e),
        },
{
    match check_stakes(bet_amount, entry_fee) {
        Ok(_) => {},
        Err(e) => {
            return Err(e);
        },
    }
    let game = Game {
        bump: ctx.bump,
        game_id,
        player1: ctx.player1,
        player2: Identity::unset(),
        house_vault: ctx.house_vault,
        session_p1: Identity::unset(),
        session_p2: Identity::unset(),
        bet_amount,
        entry_fee,
        total_pot: bet_amount,
        house_fee_bps: vault.house_fee_bps,
        rounds_played: 0,
        player1_wins: 0,
        player2_wins: 0,
        status: GameStatus::WaitingForPlayer2,
        created_slot: current_slot,
        commitments_p1: [[0u8; 32]; MAX_ROUNDS],
        commitments_p2: [[0u8; 32]; MAX_ROUNDS],
        committed_p1: [false; MAX_ROUNDS],
        committed_p2: [false; MAX_ROUNDS],
        moves_p1: [0u8; MAX_ROUNDS],
        moves_p2: [0u8; MAX_ROUNDS],
        revealed_p1: [false; MAX_ROUNDS],
        revealed_p2: [false; MAX_ROUNDS],
        commit_deadline_slots: [0u64; MAX_ROUNDS],
        round_resolved: [false; MAX_ROUNDS],
    };
    let mut transfers: Vec<Transfer> = Vec::new();
    transfers.push(Transfer { from: Custody::Player1, to: Custody::GameVault, amount: bet_amount });
    transfers.push(Transfer { from: Custody::Player1, to: Custody::HouseVault, amount: entry_fee });
    Ok((game, transfers))
}

/// A match created under a well-formed fee configuration is well-formed.
pub proof fn lemma_created_is_wf(
    game: Game,
    ctx: CreateGame,
    vault: HouseVault,
    game_id: [u8; 32],
    bet_amount: u64,
    entry_fee: u64,
    current_slot: u64,
)
    requires
        vault.wf(),
        stakes_error(bet_amount, entry_fee) is None,
        is_created(game, ctx, vault, game_id, bet_amount, entry_fee, current_slot),
    ensures
        game.wf(),
{
    assert(game.slot_empty(0) && game.slot_empty(1) && game.slot_empty(2) && game.slot_empty(3)
        && game.slot_empty(4));
}

// ---------------------------------------------------------------------------
// Joining
// ---------------------------------------------------------------------------

/// Why `join_game` refuses, if it does.
pub open spec fn join_game_error(game: Game, ctx: JoinGame) -> Option<RpsError> {
    if game.player1.is_unset_spec() {
        Some(RpsError::InvalidGameState)
    } else if ctx.house_vault != game.house_vault {
        Some(RpsError::InvalidHouseWallet)
    } else if permission_error(Operation::JoinGame, CallerRole::Neither, game.status) is Some {
        permission_error(Operation::JoinGame, CallerRole::Neither, game.status)
    } else if !game.player2.is_unset_spec() {
        Some(RpsError::AlreadyHasPlayer2)
    } else if stakes_error(game.bet_amount, game.entry_fee) is Some {
        stakes_error(game.bet_amount, game.entry_fee)
    } else if game.total_pot + game.bet_amount > u64::MAX {
        Some(RpsError::MathOverflow)
    } else {
        None
    }
}

/// The record once `ctx.player2` has joined.
pub open spec fn join_game_state(game: Game, ctx: JoinGame) -> Game {
    Game {
        player2: ctx.player2,
        total_pot: (game.total_pot + game.bet_amount) as u64,
        status: GameStatus::Active,
        ..game
    }
}

/// Seats the second player. The joiner owes exactly the bet and the entry fee
/// that the record holds; the call takes no amounts. The bet is added to the
/// pot and the match becomes active.
pub fn join_game(game: &mut Game, ctx: &JoinGame) -> (result: Result<Vec<Transfer>, RpsError>)
    ensures
        match result {
            Ok(transfers) => {
                &&& join_game_error(*old(game), *ctx) is None
                &&& *final(game) == join_game_state(*old(game), *ctx)
                &&& transfers@ == entry_transfers(
                    Custody::Player2,
                    old(game).bet_amount,
                    old(game).entry_fee,
                )
            },
            Err(e) => {
                &&& join_game_error(*old(game), *ctx) == Some(e)
                &&& *final(game) == *old(game)
            },
        },
        old(game).wf() ==> final(game).wf(),
{
    if game.player1.is_unset() {
        return Err(RpsError::InvalidGameState);
    }
    if ctx.house_vault != game.house_vault {
        return Err(RpsError::InvalidHouseWallet);
    }
    match check_permission(Operation::JoinGame, CallerRole::Neither, game.status) {
        Ok(_) => {},
        Err(e) => {
            return Err(e);
        },
    }
    if !game.player2.is_unset() {
        return Err(RpsError::AlreadyHasPlayer2);
    }
    let bet_amount = game.bet_amount;
    let entry_fee = game.entry_fee;
    match check_stakes(bet_amount, entry_fee) {
        Ok(_) => {},
        Err(e) => {
            return Err(e);
        },
    }
    let total_pot = match game.total_pot.checked_add(bet_amount) {
        Some(total_pot) => total_pot,
        None => {
            return Err(RpsError::MathOverflow);
        },
    };
    let mut transfers: Vec<Transfer> = Vec::new();
    transfers.push(Transfer { from: Custody::Player2, to: Custody::GameVault, amount: bet_amount });
    transfers.push(Transfer { from: Custody::Player2, to: Custody::HouseVault, amount: entry_fee });
    game.player2 = ctx.player2;
    game.total_pot = total_pot;
    game.status = GameStatus::Active;
    proof {
        if old(game).wf() {
            lemma_join_game_keeps_wf(*old(game), *ctx);
        }
    }
    Ok(transfers)
}

/// Joining keeps a well-formed match well-formed.
pub proof fn lemma_join_game_keeps_wf(game: Game, ctx: JoinGame)
    requires
        game.wf(),
        join_game_error(game, ctx) is None,
    ensures
        join_game_state(game, ctx).wf(),
{
    let after = join_game_state(game, ctx);
    assert forall|i: int| 0 <= i < MAX_ROUNDS implies after.slot_wf(i) by {
        assert(game.slot_wf(i));
    }
}

// ---------------------------------------------------------------------------
// Delegating
// ---------------------------------------------------------------------------

/// Why `authorize_session_signer` refuses, if it does.
pub open spec fn authorize_session_signer_error(game: Game, ctx: AuthorizeSessionSigner) -> Option<
    RpsError,
> {
    permission_error(Operation::AuthorizeSessionSigner, game.seat_of(ctx.player), game.status)
}

/// The record once `ctx.player` has named `session_pubkey` as delegate.
pub open spec fn authorize_session_signer_state(
    game: Game,
    ctx: AuthorizeSessionSigner,
    session_pubkey: Identity,
) -> Game {
    if game.seat_of(ctx.player) == CallerRole::Player1 {
        Game { session_p1: session_pubkey, ..game }
    } else {
        Game { session_p2: session_pubkey, ..game }
    }
}

/// Names a delegate that may act for the calling player in round operations.
/// Only a player in person may do so, and only while the match is waiting or
/// active. A later call replaces the delegate.
pub fn authorize_session_signer(
    game: &mut Game,
    ctx: &AuthorizeSessionSigner,
    session_pubkey: Identity,
) -> (result: Result<(), RpsError>)
    ensures
        match result {
            Ok(_) => {
                &&& authorize_session_signer_error(*old(game), *ctx) is None
                &&& *final(game) == authorize_session_signer_state(*old(game), *ctx, session_pubkey)
            },
            Err(e) => {
                &&& authorize_session_signer_error(*old(game), *ctx) == Some(e)
                &&& *final(game) == *old(game)
            },
        },
        old(game).wf() ==> final(game).wf(),
{
    let seat = classify_player(game, &ctx.player);
    match check_permission(Operation::AuthorizeSessionSigner, seat, game.status) {
        Ok(_) => {},
        Err(e) => {
            return Err(e);
        },
    }
    if seat == CallerRole::Player1 {
        game.session_p1 = session_pubkey;
    } else {
        game.session_p2 = session_pubkey;
    }
    proof {
        if old(game).wf() {
            lemma_authorize_session_signer_keeps_wf(*old(game), *ctx, session_pubkey);
        }
    }
    Ok(())
}

/// Naming a delegate keeps a well-formed match well-formed.
pub proof fn lemma_authorize_session_signer_keeps_wf(
    game: Game,
    ctx: AuthorizeSessionSigner,
    session_pubkey: Identity,
)
    requires
        game.wf(),
        authorize_session_signer_error(game, ctx) is None,
    ensures
        authorize_session_signer_state(game, ctx, session_pubkey).wf(),
{
    let after = authorize_session_signer_state(game, ctx, session_pubkey);
    assert forall|i: int| 0 <= i < MAX_ROUNDS implies after.slot_wf(i) by {
        assert(game.slot_wf(i));
    }
    if game.status == GameStatus::WaitingForPlayer2 {
        assert forall|i: int| 0 <= i < MAX_ROUNDS implies after.slot_empty(i) by {
            assert(game.slot_empty(i));
        }
    }
}

// ---------------------------------------------------------------------------
// Forfeiting
// ---------------------------------------------------------------------------

/// Why `forfeit_game` refuses, if it does.
pub open spec fn forfeit_game_error(game: Game) -> Option<RpsError> {
    permission_error(Operation::ForfeitGame, CallerRole::Neither, game.status)
}

/// The record once one side has forfeited: the other side holds three wins
/// and the match is finished.
pub open spec fn forfeit_game_state(game: Game, loser_is_player1: bool) -> Game {
    if loser_is_player1 {
        Game { player2_wins: WINS_TO_FINISH, status: GameStatus::Finished, ..game }
    } else {
        Game { player1_wins: WINS_TO_FINISH, status: GameStatus::Finished, ..game }
    }
}

/// What `forfeit_game` reports.
pub open spec fn forfeit_game_event(game: Game, loser_is_player1: bool) -> GameForfeitEvent {
    GameForfeitEvent {
        game_id: game.game_id,
        loser: if loser_is_player1 {
            game.player1
        } else {
            game.player2
        },
        winner: if loser_is_player1 {
            game.player2
        } else {
            game.player1
        },
    }
}

/// Ends an active match at once in favour of the side that did not forfeit:
/// that side is credited three wins and the match is finished. No funds move
/// here; the match is settled separately. Anyone may call it.
pub fn forfeit_game(game: &mut Game, ctx: &ForfeitGame, loser_is_player1: bool) -> (result: Result<
    GameForfeitEvent,
    RpsError,
>)
    ensures
        match result {
            Ok(event) => {
                &&& forfeit_game_error(*old(game)) is None
                &&& *final(game) == forfeit_game_state(*old(game), loser_is_player1)
                &&& event == forfeit_game_event(*old(game), loser_is_player1)
            },
            Err(e) => {
                &&& forfeit_game_error(*old(game)) == Some(e)
                &&& *final(game) == *old(game)
            },
        },
        old(game).wf() ==> final(game).wf(),
{
    match check_permission(Operation::ForfeitGame, CallerRole::Neither, game.status) {
        Ok(_) => {},
        Err(e) => {
            return Err(e);
        },
    }
    if loser_is_player1 {
        game.player2_wins = WINS_TO_FINISH;
    } else {
        game.player1_wins = WINS_TO_FINISH;
    }
    game.status = GameStatus::Finished;
    proof {
        if old(game).wf() {
            lemma_forfeit_game_keeps_wf(*old(game), loser_is_player1);
        }
    }
    Ok(
        GameForfeitEvent {
            game_id: game.game_id,
            loser: if loser_is_player1 {
                game.player1
            } else {
                game.player2
            },
            winner: if loser_is_player1 {
                game.player2
            } else {
                game.player1
            },
        },
    )
}

/// A forfeit keeps a well-formed match well-formed.
pub proof fn lemma_forfeit_game_keeps_wf(game: Game, loser_is_player1: bool)
    requires
        game.wf(),
        forfeit_game_error(game) is None,
    ensures
        forfeit_game_state(game, loser_is_player1).wf(),
{
    let after = forfeit_game_state(game, loser_is_player1);
    assert forall|i: int| 0 <= i < MAX_ROUNDS implies after.slot_wf(i) by {
        assert(game.slot_wf(i));
    }
}

// ---------------------------------------------------------------------------
// Calling off
// ---------------------------------------------------------------------------

/// Why `cancel_game` refuses, if it does.
pub open spec fn cancel_game_error(game: Game, ctx: CancelGame) -> Option<RpsError> {
    if ctx.player1 != game.player1 {
        Some(RpsError::InvalidPlayerAccount)
    } else if ctx.player2 != game.player2 {
        Some(RpsError::InvalidPlayerAccount)
    } else {
        permission_error(Operation::CancelGame, CallerRole::Neither, game.status)
    }
}

/// The record once the match was called off.
pub open spec fn cancel_game_state(game: Game) -> Game {
    Game { status: GameStatus::Cancelled, ..game }
}

/// What `cancel_game` reports.
pub open spec fn cancel_game_event(game: Game) -> GameCancelledEvent {
    GameCancelledEvent {
        game_id: game.game_id,
        player1: game.player1,
        player2: game.player2,
        player1_refund: cancel_refunds_of(game.total_pot, game.bet_amount).0,
        player2_refund: cancel_refunds_of(game.total_pot, game.bet_amount).1,
    }
}

/// The refunds that calling the match off takes, out of the match's vault.
pub open spec fn cancel_game_transfers(game: Game) -> Seq<Transfer> {
    vault_transfer(
        cancel_refunds_of(game.total_pot, game.bet_amount).0,
        Custody::GameVault,
        Custody::Player1,
    ) + vault_transfer(
        cancel_refunds_of(game.total_pot, game.bet_amount).1,
        Custody::GameVault,
        Custody::Player2,
    )
}

/// Calls an active match off and hands the bets back. Anyone may call it.
/// The refunds are computed from the pot and the bet in the record; entry
/// fees stay with the house and no rake is taken.
pub fn cancel_game(game: &mut Game, ctx: &CancelGame) -> (result: Result<
    (GameCancelledEvent, Vec<Transfer>),
    RpsError,
>)
    ensures
        match result {
            Ok((event, transfers)) => {
                &&& cancel_game_error(*old(game), *ctx) is None
                &&& *final(game) == cancel_game_state(*old(game))
                &&& event == cancel_game_event(*old(game))
                &&& transfers@ == cancel_game_transfers(*old(game))
            },
            Err(e) => {
                &&& cancel_game_error(*old(game), *ctx) == Some(e)
                &&& *final(game) == *old(game)
            },
        },
        old(game).wf() ==> final(game).wf(),
{
    if ctx.player1 != game.player1 {
        return Err(RpsError::InvalidPlayerAccount);
    }
    if ctx.player2 != game.player2 {
        return Err(RpsError::InvalidPlayerAccount);
    }
    match check_permission(Operation::CancelGame, CallerRole::Neither, game.status) {
        Ok(_) => {},
        Err(e) => {
            return Err(e);
        },
    }
    let (player1_refund, player2_refund) = cancel_refunds(game.total_pot, game.bet_amount);
    let mut transfers: Vec<Transfer> = Vec::new();
    transfer_with_signer(player1_refund, Custody::GameVault, Custody::Player1, &mut transfers);
    transfer_with_signer(player2_refund, Custody::GameVault, Custody::Player2, &mut transfers);
    game.status = GameStatus::Cancelled;
    proof {
        if old(game).wf() {
            lemma_cancel_game_keeps_wf(*old(game), *ctx);
        }
    }
    Ok(
        (
            GameCancelledEvent {
                game_id: game.game_id,
                player1: game.player1,
                player2: game.player2,
                player1_refund,
                player2_refund,
            },
            transfers,
        ),
    )
}

/// Calling a match off keeps a well-formed match well-formed.
pub proof fn lemma_cancel_game_keeps_wf(game: Game, ctx: CancelGame)
    requires
        game.wf(),
        cancel_game_error(game, ctx) is None,
    ensures
        cancel_game_state(game).wf(),
{
    let after = cancel_game_state(game);
    assert forall|i: int| 0 <= i < MAX_ROUNDS implies after.slot_wf(i) by {
        assert(game.slot_wf(i));
    }
}

// ---------------------------------------------------------------------------
// Settling
// ---------------------------------------------------------------------------

/// Why `settle_game` refuses, if it does.
pub open spec fn settle_game_error(game: Game, ctx: SettleGame) -> Option<RpsError> {
    if ctx.player1 != game.player1 {
        Some(RpsError::InvalidPlayerAccount)
    } else if ctx.player2 != game.player2 {
        Some(RpsError::InvalidPlayerAccount)
    } else if ctx.house_vault != game.house_vault {
        Some(RpsError::InvalidHouseWallet)
    } else if permission_error(Operation::SettleGame, CallerRole::Neither, game.status) is Some {
        permission_error(Operation::SettleGame, CallerRole::Neither, game.status)
    } else if game.total_pot == 0 {
        Some(RpsError::InvalidBetAmount)
    } else if settlement_overflows(
        game.total_pot,
        game.house_fee_bps,
        game.player1_wins,
        game.player2_wins,
    ) {
        Some(RpsError::MathOverflow)
    } else {
        None
    }
}

/// The record once the match was settled.
pub open spec fn settle_game_state(game: Game) -> Game {
    Game { status: GameStatus::Settled, ..game }
}

/// The payments that settling the match takes.
pub open spec fn settle_game_transfers(game: Game) -> Seq<Transfer> {
    settlement_transfers(
        settlement_of(game.total_pot, game.house_fee_bps, game.player1_wins, game.player2_wins),
    )
}

/// Settles a finished match, once. The player with more wins takes the pot
/// less the rake; equal wins split the pot without rake. The record is then
/// to be destroyed and its storage deposit credited to player 1. Anyone may
/// call it. A second call finds the match settled and is refused.
pub fn settle_game(game: &mut Game, ctx: &SettleGame) -> (result: Result<Closing, RpsError>)
    ensures
        match result {
            Ok(closing) => {
                &&& settle_game_error(*old(game), *ctx) is None
                &&& *final(game) == settle_game_state(*old(game))
                &&& closing.transfers@ == settle_game_transfers(*old(game))
                &&& closing.rent_to == Custody::Player1
            },
            Err(e) => {
                &&& settle_game_error(*old(game), *ctx) == Some(e)
                &&& *final(game) == *old(game)
            },
        },
        old(game).wf() ==> final(game).wf(),
{
    if ctx.player1 != game.player1 {
        return Err(RpsError::InvalidPlayerAccount);
    }
    if ctx.player2 != game.player2 {
        return Err(RpsError::InvalidPlayerAccount);
    }
    if ctx.house_vault != game.house_vault {
        return Err(RpsError::InvalidHouseWallet);
    }
    match check_permission(Operation::SettleGame, CallerRole::Neither, game.status) {
        Ok(_) => {},
        Err(e) => {
            return Err(e);
        },
    }
    if game.total_pot == 0 {
        return Err(RpsError::InvalidBetAmount);
    }
    let settlement = match compute_settlement(
        game.total_pot,
        game.house_fee_bps,
        game.player1_wins,
        game.player2_wins,
    ) {
        Ok(settlement) => settlement,
        Err(e) => {
            return Err(e);
        },
    };
    let mut transfers: Vec<Transfer> = Vec::new();
    transfer_with_signer(settlement.payout_p1, Custody::GameVault, Custody::Player1, &mut transfers);
    transfer_with_signer(settlement.payout_p2, Custody::GameVault, Custody::Player2, &mut transfers);
    transfer_with_signer(settlement.house_fee, Custody::GameVault, Custody::HouseVault, &mut transfers);
    game.status = GameStatus::Settled;
    proof {
        if old(game).wf() {
            lemma_settle_game_keeps_wf(*old(game), *ctx);
        }
    }
    Ok(Closing { transfers, rent_to: Custody::Player1 })
}

/// Settling keeps a well-formed match well-formed.
pub proof fn lemma_settle_game_keeps_wf(game: Game, ctx: SettleGame)
    requires
        game.wf(),
        settle_game_error(game, ctx) is None,
    ensures
        settle_game_state(game).wf(),
{
    let after = settle_game_state(game);
    assert forall|i: int| 0 <= i < MAX_ROUNDS implies after.slot_wf(i) by {
        assert(game.slot_wf(i));
    }
}

// ---------------------------------------------------------------------------
// Closing a match that nobody joined
// ---------------------------------------------------------------------------

/// Why `cancel_game_if_timed_out` refuses, if it does.
pub open spec fn cancel_game_if_timed_out_error(
    game: Game,
    ctx: CancelGameIfTimedOut,
    current_slot: u64,
) -> Option<RpsError> {
    if ctx.player1 != game.player1 {
        Some(RpsError::NotAPlayer)
    } else if permission_error(Operation::CancelGameIfTimedOut, CallerRole::Neither, game.status)
        is Some {
        permission_error(Operation::CancelGameIfTimedOut, CallerRole::Neither, game.status)
    } else if current_slot < game.created_slot + TIMEOUT_SLOTS {
        Some(RpsError::NotTimedOut)
    } else {
        None
    }
}

/// Closes a match that is still waiting for a second player once
/// `TIMEOUT_SLOTS` ticks have passed since it was created. The pot goes back
/// to player 1 (the entry fee stays with the house), the record is to be
/// destroyed and its storage deposit credited to player 1. Anyone may call
/// it. The record itself is not written to.
pub fn cancel_game_if_timed_out(game: &Game, ctx: &CancelGameIfTimedOut, current_slot: u64) -> (result:
    Result<Closing, RpsError>)
    ensures
        match result {
            Ok(closing) => {
                &&& cancel_game_if_timed_out_error(*game, *ctx, current_slot) is None
                &&& closing.transfers@ == vault_transfer(
                    game.total_pot,
                    Custody::GameVault,
                    Custody::Player1,
                )
                &&& closing.rent_to == Custody::Player1
            },
            Err(e) => cancel_game_if_timed_out_error(*game, *ctx, current_slot) == Some(e),
        },
{
    if ctx.player1 != game.player1 {
        return Err(RpsError::NotAPlayer);
    }
    match check_permission(Operation::CancelGameIfTimedOut, CallerRole::Neither, game.status) {
        Ok(_) => {},
        Err(e) => {
            return Err(e);
        },
    }
    if current_slot < game.created_slot || current_slot - game.created_slot < TIMEOUT_SLOTS {
        return Err(RpsError::NotTimedOut);
    }
    let mut transfers: Vec<Transfer> = Vec::new();
    transfer_with_signer(game.total_pot, Custody::GameVault, Custody::Player1, &mut transfers);
    Ok(Closing { transfers, rent_to: Custody::Player1 })
}

} // verus!
