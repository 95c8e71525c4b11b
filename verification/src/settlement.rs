//! How a pot is divided.

use vstd::prelude::*;
use crate::escrow::vault_transfer;
use crate::escrow::Custody;
use crate::escrow::Transfer;
use crate::state::RpsError;
use crate::state::BPS_DENOMINATOR;

verus! {

/// What each party receives out of a pot.
#[derive(Clone, Copy, PartialEq, Eq, Structural, Debug)]
pub struct Settlement {
    pub payout_p1: u64,
    pub payout_p2: u64,
    pub house_fee: u64,
}

/// The rake on a decided match: `fee_bps` basis points of the pot, rounded
/// down.
pub open spec fn house_fee_of(pot: u64, fee_bps: u16) -> int {
    (pot * fee_bps) / (BPS_DENOMINATOR as int)
}

/// The division of the pot cannot be computed in 64 bits, or the rake would
/// exceed the pot. A drawn match never overflows.
pub open spec fn settlement_overflows(pot: u64, fee_bps: u16, player1_wins: u8, player2_wins: u8) -> bool {
    player1_wins != player2_wins && (pot * fee_bps > u64::MAX || house_fee_of(pot, fee_bps) > pot)
}

/// The division of a pot. A decided match pays the rake to the house and the
/// rest to the player with more wins. A drawn match pays no rake and is split
/// in halves; the odd unit, if there is one, goes to player 1.
pub open spec fn settlement_of(pot: u64, fee_bps: u16, player1_wins: u8, player2_wins: u8) -> Settlement {
    if player1_wins > player2_wins {
        Settlement {
            payout_p1: (pot - house_fee_of(pot, fee_bps)) as u64,
            payout_p2: 0,
            house_fee: house_fee_of(pot, fee_bps) as u64,
        }
    } else if player2_wins > player1_wins {
        Settlement {
            payout_p1: 0,
            payout_p2: (pot - house_fee_of(pot, fee_bps)) as u64,
            house_fee: house_fee_of(pot, fee_bps) as u64,
        }
    } else {
        Settlement { payout_p1: (pot - pot / 2) as u64, payout_p2: pot / 2, house_fee: 0 }
    }
}

/// Divides a pot between the players and the house. Fails with
/// `MathOverflow`, before anything is paid, when the rake cannot be computed
/// in 64 bits or would exceed the pot. What is handed out adds up to the pot
/// exactly.
pub fn compute_settlement(pot: u64, fee_bps: u16, player1_wins: u8, player2_wins: u8) -> (result: Result<
    Settlement,
    RpsError,
>)
    ensures
        match result {
            Ok(settlement) => {
                &&& !settlement_overflows(pot, fee_bps, player1_wins, player2_wins)
                &&& settlement == settlement_of(pot, fee_bps, player1_wins, player2_wins)
                &&& settlement.payout_p1 + settlement.payout_p2 + settlement.house_fee == pot
            },
            Err(e) => {
                &&& settlement_overflows(pot, fee_bps, player1_wins, player2_wins)
                &&& e == RpsError::MathOverflow
            },
        },
{
    if player1_wins != player2_wins {
        let scaled = match pot.checked_mul(fee_bps as u64) {
            Some(scaled) => scaled,
            None => {
                return Err(RpsError::MathOverflow);
            },
        };
        let house_fee = scaled / BPS_DENOMINATOR;
        let winner_amount = match pot.checked_sub(house_fee) {
            Some(amount) => amount,
            None => {
                return Err(RpsError::MathOverflow);
            },
        };
        if player1_wins > player2_wins {
            Ok(Settlement { payout_p1: winner_amount, payout_p2: 0, house_fee })
        } else {
            Ok(Settlement { payout_p1: 0, payout_p2: winner_amount, house_fee })
        }
    } else {
        let half = pot / 2;
        let remainder = pot - half * 2;
        Ok(Settlement { payout_p1: half + remainder, payout_p2: half, house_fee: 0 })
    }
}

/// The payments that a settlement takes, all out of the match's vault: to
/// player 1, to player 2, to the house, leaving out amounts of zero.
pub open spec fn settlement_transfers(settlement: Settlement) -> Seq<Transfer> {
    vault_transfer(settlement.payout_p1, Custody::GameVault, Custody::Player1) + vault_transfer(
        settlement.payout_p2,
        Custody::GameVault,
        Custody::Player2,
    ) + vault_transfer(settlement.house_fee, Custody::GameVault, Custody::HouseVault)
}

/// What each player gets back when a match is called off, player 1 first.
/// With both bets in the pot each player gets the bet back; with exactly one
/// bet in the pot player 1, who paid it, gets the pot; in any other case
/// nothing is refunded.
pub open spec fn cancel_refunds_of(pot: u64, bet: u64) -> (u64, u64) {
    if pot >= 2 * bet {
        (bet, bet)
    } else if pot == bet {
        (pot, 0)
    } else {
        (0, 0)
    }
}

/// Computes the refunds of a cancelled match from the pot and the bet alone.
/// No fee is refunded and no rake is taken.
pub fn cancel_refunds(pot: u64, bet: u64) -> (refunds: (u64, u64))
    ensures
        refunds == cancel_refunds_of(pot, bet),
        refunds.0 + refunds.1 <= pot,
{
    let both_paid = match bet.checked_mul(2) {
        Some(two_bets) => pot >= two_bets,
        None => false,
    };
    if both_paid {
        (bet, bet)
    } else if pot == bet {
        (pot, 0)
    } else {
        (0, 0)
    }
}

/// A decided match with a rate of at most 100% never overflows on a pot that
/// fits the rate: the rake is no more than the pot.
pub proof fn lemma_fee_within_pot(pot: u64, fee_bps: u16)
    requires
        fee_bps <= BPS_DENOMINATOR,
    ensures
        0 <= house_fee_of(pot, fee_bps) <= pot,
{
    assert(pot * fee_bps <= pot * 10_000) by (nonlinear_arith)
        requires
            fee_bps <= 10_000,
            pot >= 0,
    ;
    assert(0 <= pot * fee_bps) by (nonlinear_arith)
        requires
            fee_bps >= 0,
            pot >= 0,
    ;
}

} // verus!
