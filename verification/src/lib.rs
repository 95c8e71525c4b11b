//! Two-party, best-of-five rock-paper-scissors wagering with hidden moves.
//!
//! A match escrows one bet from each of two players, runs up to five rounds of
//! commit and reveal, and pays the pot out once a player has three wins or the
//! fifth round has been resolved.
//!
//! The library holds the rules and nothing else. It keeps no state of its own,
//! reads no clock and moves no funds: every operation takes the record of the
//! match, the identity of the caller and the current tick as plain values, and
//! hands back the new record together with the transfers and the notification
//! it calls for. A refused operation leaves the record as it was.
//!
//! - [`state`]: the record of a match and what is always true of it.
//! - [`session`]: create, join, delegate, forfeit, cancel, settle, close.
//! - [`rounds`]: start a round, commit, reveal, resolve a timeout.
//! - [`outcome`]: who wins a round.
//! - [`commitment`]: the hash that binds a hidden move.
//! - [`settlement`]: how a pot is divided.
//! - [`escrow`]: transfers as values.
//! - [`permissions`]: who may attempt what on a match of which status.
//! - [`house`]: the fee configuration and the house vault.
//! - [`laws`], [`history`]: what holds of the operations taken together, and
//!   over every sequence of calls.

pub mod accounts;
pub mod commitment;
pub mod escrow;
pub mod events;
pub mod history;
pub mod house;
pub mod identity;
pub mod laws;
pub mod outcome;
pub mod permissions;
pub mod roles;
pub mod rounds;
pub mod session;
pub mod settlement;
pub mod state;

pub use crate::accounts::AuthorizeSessionSigner;
pub use crate::accounts::CancelGame;
pub use crate::accounts::CancelGameIfTimedOut;
pub use crate::accounts::CommitMove;
pub use crate::accounts::CreateGame;
pub use crate::accounts::ForfeitGame;
pub use crate::accounts::InitHouseVault;
pub use crate::accounts::JoinGame;
pub use crate::accounts::ResolveCommitTimeout;
pub use crate::accounts::RevealMove;
pub use crate::accounts::SetHouseFee;
pub use crate::accounts::SettleGame;
pub use crate::accounts::StartRound;
pub use crate::accounts::WithdrawHouseFunds;
pub use crate::events::GameCancelledEvent;
pub use crate::events::GameForfeitEvent;
pub use crate::events::RoundPhaseEvent;
pub use crate::events::RoundResultEvent;
pub use crate::events::RoundStartEvent;
pub use crate::house::init_house_vault;
pub use crate::house::set_house_fee;
pub use crate::house::withdraw_house_funds;
pub use crate::outcome::round_winner;
pub use crate::outcome::RoundResult;
pub use crate::rounds::commit_move;
pub use crate::rounds::resolve_commit_timeout;
pub use crate::rounds::reveal_move;
pub use crate::rounds::start_round;
pub use crate::session::authorize_session_signer;
pub use crate::session::cancel_game;
pub use crate::session::cancel_game_if_timed_out;
pub use crate::session::create_game;
pub use crate::session::forfeit_game;
pub use crate::session::join_game;
pub use crate::session::settle_game;
pub use crate::state::Game;
pub use crate::state::GameStatus;
pub use crate::state::HouseVault;
pub use crate::state::RpsError;
