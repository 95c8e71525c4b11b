use rps_game::escrow::transfer_with_signer;
use rps_game::escrow::Custody;
use rps_game::escrow::Transfer;
use rps_game::outcome::round_winner;
use rps_game::outcome::RoundResult;
use rps_game::outcome::PAPER;
use rps_game::outcome::ROCK;
use rps_game::outcome::SCISSORS;
use rps_game::settlement::cancel_refunds;
use rps_game::settlement::compute_settlement;
use rps_game::settlement::Settlement;
use rps_game::state::RpsError;

#[test]
fn round_winner_full_table() {
    assert_eq!(round_winner(ROCK, ROCK), RoundResult::Draw);
    assert_eq!(round_winner(PAPER, PAPER), RoundResult::Draw);
    assert_eq!(round_winner(SCISSORS, SCISSORS), RoundResult::Draw);
    assert_eq!(round_winner(ROCK, SCISSORS), RoundResult::Player1Win);
    assert_eq!(round_winner(PAPER, ROCK), RoundResult::Player1Win);
    assert_eq!(round_winner(SCISSORS, PAPER), RoundResult::Player1Win);
    assert_eq!(round_winner(SCISSORS, ROCK), RoundResult::Player2Win);
    assert_eq!(round_winner(ROCK, PAPER), RoundResult::Player2Win);
    assert_eq!(round_winner(PAPER, SCISSORS), RoundResult::Player2Win);
}

#[test]
fn round_winner_move_values_are_zero_one_two() {
    assert_eq!((ROCK, PAPER, SCISSORS), (0, 1, 2));
}

#[test]
fn round_winner_unknown_moves_draw() {
    assert_eq!(round_winner(3, 0), RoundResult::Draw);
    assert_eq!(round_winner(0, 3), RoundResult::Draw);
    assert_eq!(round_winner(255, 254), RoundResult::Draw);
    assert_eq!(round_winner(7, 7), RoundResult::Draw);
}

#[test]
fn round_winner_is_antisymmetric() {
    for a in 0..3u8 {
        for b in 0..3u8 {
            let forward = round_winner(a, b);
            let backward = round_winner(b, a);
            let mirrored = match forward {
                RoundResult::Player1Win => RoundResult::Player2Win,
                RoundResult::Player2Win => RoundResult::Player1Win,
                RoundResult::Draw => RoundResult::Draw,
            };
            assert_eq!(backward, mirrored);
        }
    }
}

#[test]
fn settlement_of_a_million_at_one_percent() {
    let won_by_p1 = compute_settlement(1_000_000, 100, 3, 0);
    assert_eq!(
        won_by_p1,
        Ok(Settlement { payout_p1: 990_000, payout_p2: 0, house_fee: 10_000 })
    );
    let won_by_p2 = compute_settlement(1_000_000, 100, 1, 3);
    assert_eq!(
        won_by_p2,
        Ok(Settlement { payout_p1: 0, payout_p2: 990_000, house_fee: 10_000 })
    );
    let s = won_by_p1.unwrap();
    assert_eq!(s.payout_p1 + s.payout_p2 + s.house_fee, 1_000_000);
}

#[test]
fn settlement_of_an_odd_pot_drawn() {
    let drawn = compute_settlement(1_000_001, 100, 2, 2);
    assert_eq!(
        drawn,
        Ok(Settlement { payout_p1: 500_001, payout_p2: 500_000, house_fee: 0 })
    );
    let s = drawn.unwrap();
    assert_eq!(s.payout_p1 + s.payout_p2, 1_000_001);
}

#[test]
fn settlement_of_an_even_pot_drawn() {
    assert_eq!(
        compute_settlement(200_000_000, 1_000, 0, 0),
        Ok(Settlement { payout_p1: 100_000_000, payout_p2: 100_000_000, house_fee: 0 })
    );
}

#[test]
fn settlement_rounds_the_fee_down() {
    assert_eq!(
        compute_settlement(9_999, 1, 3, 2),
        Ok(Settlement { payout_p1: 9_999, payout_p2: 0, house_fee: 0 })
    );
    assert_eq!(
        compute_settlement(10_000, 1, 3, 2),
        Ok(Settlement { payout_p1: 9_999, payout_p2: 0, house_fee: 1 })
    );
    assert_eq!(
        compute_settlement(19_999, 1, 2, 3),
        Ok(Settlement { payout_p1: 0, payout_p2: 19_998, house_fee: 1 })
    );
    assert_eq!(
        compute_settlement(200_000_001, 250, 3, 0),
        Ok(Settlement { payout_p1: 195_000_001, payout_p2: 0, house_fee: 5_000_000 })
    );
}

#[test]
fn settlement_with_no_fee_and_full_fee() {
    assert_eq!(
        compute_settlement(777, 0, 3, 0),
        Ok(Settlement { payout_p1: 777, payout_p2: 0, house_fee: 0 })
    );
    assert_eq!(
        compute_settlement(777, 10_000, 0, 3),
        Ok(Settlement { payout_p1: 0, payout_p2: 0, house_fee: 777 })
    );
}

#[test]
fn settlement_of_tiny_pots() {
    assert_eq!(
        compute_settlement(0, 100, 3, 0),
        Ok(Settlement { payout_p1: 0, payout_p2: 0, house_fee: 0 })
    );
    assert_eq!(
        compute_settlement(1, 100, 1, 1),
        Ok(Settlement { payout_p1: 1, payout_p2: 0, house_fee: 0 })
    );
}

#[test]
fn settlement_overflow_is_reported() {
    assert_eq!(compute_settlement(u64::MAX, 100, 3, 0), Err(RpsError::MathOverflow));
    assert_eq!(compute_settlement(u64::MAX / 100 + 1, 100, 0, 3), Err(RpsError::MathOverflow));
    assert_eq!(
        compute_settlement(u64::MAX / 100, 100, 3, 0),
        Ok(Settlement {
            payout_p1: u64::MAX / 100 - u64::MAX / 100 / 100,
            payout_p2: 0,
            house_fee: u64::MAX / 100 / 100,
        })
    );
}

#[test]
fn settlement_refuses_a_fee_above_the_pot() {
    assert_eq!(compute_settlement(10_000, 10_001, 3, 0), Err(RpsError::MathOverflow));
    assert_eq!(compute_settlement(10_000, u16::MAX, 0, 1), Err(RpsError::MathOverflow));
    assert_eq!(
        compute_settlement(1_000, 10_001, 3, 0),
        Ok(Settlement { payout_p1: 0, payout_p2: 0, house_fee: 1_000 })
    );
    assert_eq!(
        compute_settlement(10_000, 10_001, 1, 1),
        Ok(Settlement { payout_p1: 5_000, payout_p2: 5_000, house_fee: 0 })
    );
}

#[test]
fn settlement_of_a_draw_never_overflows() {
    assert_eq!(
        compute_settlement(u64::MAX, u16::MAX, 2, 2),
        Ok(Settlement { payout_p1: u64::MAX / 2 + 1, payout_p2: u64::MAX / 2, house_fee: 0 })
    );
}

#[test]
fn settlement_conserves_the_pot() {
    let pots = [1u64, 2, 3, 99, 10_000, 123_456_789, 200_000_000, 1 << 40];
    let rates = [0u16, 1, 99, 100, 999, 1_000];
    let tallies = [(3u8, 0u8), (0, 3), (3, 2), (2, 3), (2, 2), (0, 0), (1, 2)];
    for pot in pots {
        for rate in rates {
            for (w1, w2) in tallies {
                let s = compute_settlement(pot, rate, w1, w2).unwrap();
                assert_eq!(s.payout_p1 + s.payout_p2 + s.house_fee, pot);
                if w1 == w2 {
                    assert_eq!(s.house_fee, 0);
                    assert_eq!(s.payout_p1 - s.payout_p2, pot % 2);
                } else {
                    assert_eq!(s.house_fee, pot * rate as u64 / 10_000);
                }
            }
        }
    }
}

#[test]
fn cancel_refunds_cases() {
    assert_eq!(cancel_refunds(200, 100), (100, 100));
    assert_eq!(cancel_refunds(250, 100), (100, 100));
    assert_eq!(cancel_refunds(100, 100), (100, 0));
    assert_eq!(cancel_refunds(150, 100), (0, 0));
    assert_eq!(cancel_refunds(99, 100), (0, 0));
    assert_eq!(cancel_refunds(0, 100), (0, 0));
    assert_eq!(cancel_refunds(0, 0), (0, 0));
    assert_eq!(cancel_refunds(5, 0), (0, 0));
    assert_eq!(cancel_refunds(u64::MAX, u64::MAX), (u64::MAX, 0));
    assert_eq!(cancel_refunds(u64::MAX, 1 << 63), (0, 0));
    assert_eq!(cancel_refunds(u64::MAX - 1, u64::MAX / 2), (u64::MAX / 2, u64::MAX / 2));
}

#[test]
fn transfer_with_signer_skips_zero() {
    let mut transfers = Vec::new();
    transfer_with_signer(0, Custody::GameVault, Custody::Player1, &mut transfers);
    assert_eq!(transfers, vec![]);
    transfer_with_signer(5, Custody::GameVault, Custody::Player2, &mut transfers);
    transfer_with_signer(0, Custody::GameVault, Custody::HouseVault, &mut transfers);
    transfer_with_signer(7, Custody::HouseVault, Custody::Admin, &mut transfers);
    assert_eq!(
        transfers,
        vec![
            Transfer { from: Custody::GameVault, to: Custody::Player2, amount: 5 },
            Transfer { from: Custody::HouseVault, to: Custody::Admin, amount: 7 },
        ]
    );
}
