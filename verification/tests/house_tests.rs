use rps_game::accounts::InitHouseVault;
use rps_game::accounts::SetHouseFee;
use rps_game::accounts::WithdrawHouseFunds;
use rps_game::escrow::Custody;
use rps_game::escrow::Transfer;
use rps_game::house::init_house_vault;
use rps_game::house::set_house_fee;
use rps_game::house::withdraw_house_funds;
use rps_game::identity::Identity;
use rps_game::permissions::check_permission;
use rps_game::permissions::Operation;
use rps_game::state::CallerRole;
use rps_game::state::Game;
use rps_game::state::GameStatus;
use rps_game::state::HouseVault;
use rps_game::state::RpsError;
use rps_game::state::DEFAULT_HOUSE_FEE_BPS;
use rps_game::state::MAX_HOUSE_FEE_BPS;

fn admin() -> Identity {
    Identity::new([100u8; 32])
}

fn intruder() -> Identity {
    Identity::new([101u8; 32])
}

#[test]
fn init_house_vault_sets_the_default_fee() {
    let vault = init_house_vault(&InitHouseVault { admin: admin(), bump: 251 });
    assert_eq!(vault, HouseVault { bump: 251, admin: admin(), house_fee_bps: 100 });
    assert_eq!(DEFAULT_HOUSE_FEE_BPS, 100);
    assert_eq!(MAX_HOUSE_FEE_BPS, 1_000);
}

#[test]
fn set_house_fee_by_the_admin_up_to_the_maximum() {
    let mut vault = init_house_vault(&InitHouseVault { admin: admin(), bump: 1 });
    assert_eq!(set_house_fee(&mut vault, &SetHouseFee { admin: admin() }, 0), Ok(()));
    assert_eq!(vault.house_fee_bps, 0);
    assert_eq!(set_house_fee(&mut vault, &SetHouseFee { admin: admin() }, 1_000), Ok(()));
    assert_eq!(vault.house_fee_bps, 1_000);
    assert_eq!(
        set_house_fee(&mut vault, &SetHouseFee { admin: admin() }, 1_001),
        Err(RpsError::InvalidHouseFee)
    );
    assert_eq!(vault.house_fee_bps, 1_000);
    assert_eq!(vault, HouseVault { bump: 1, admin: admin(), house_fee_bps: 1_000 });
}

#[test]
fn set_house_fee_by_anyone_else_is_refused() {
    let mut vault = init_house_vault(&InitHouseVault { admin: admin(), bump: 1 });
    assert_eq!(
        set_house_fee(&mut vault, &SetHouseFee { admin: intruder() }, 5),
        Err(RpsError::Unauthorized)
    );
    assert_eq!(
        set_house_fee(&mut vault, &SetHouseFee { admin: intruder() }, 5_000),
        Err(RpsError::Unauthorized)
    );
    assert_eq!(vault.house_fee_bps, 100);
}

#[test]
fn withdraw_house_funds_goes_to_the_admin() {
    let vault = init_house_vault(&InitHouseVault { admin: admin(), bump: 1 });
    assert_eq!(
        withdraw_house_funds(&vault, &WithdrawHouseFunds { admin: admin() }, 12_345),
        Ok(vec![Transfer { from: Custody::HouseVault, to: Custody::Admin, amount: 12_345 }])
    );
    assert_eq!(
        withdraw_house_funds(&vault, &WithdrawHouseFunds { admin: admin() }, 0),
        Ok(vec![])
    );
    assert_eq!(
        withdraw_house_funds(&vault, &WithdrawHouseFunds { admin: intruder() }, 12_345),
        Err(RpsError::Unauthorized)
    );
}

#[test]
fn record_sizes() {
    assert_eq!(HouseVault::SPACE, 43);
    assert_eq!(Game::SPACE, 634);
}

const ALL_OPERATIONS: [Operation; 10] = [
    Operation::JoinGame,
    Operation::AuthorizeSessionSigner,
    Operation::StartRound,
    Operation::CommitMove,
    Operation::RevealMove,
    Operation::ResolveCommitTimeout,
    Operation::ForfeitGame,
    Operation::CancelGame,
    Operation::SettleGame,
    Operation::CancelGameIfTimedOut,
];

const ALL_STATUSES: [GameStatus; 5] = [
    GameStatus::WaitingForPlayer2,
    GameStatus::Active,
    GameStatus::Finished,
    GameStatus::Cancelled,
    GameStatus::Settled,
];

#[test]
fn permission_table_for_parties() {
    for role in [CallerRole::Player1, CallerRole::Player2] {
        for op in ALL_OPERATIONS {
            for status in ALL_STATUSES {
                let open = match op {
                    Operation::JoinGame | Operation::CancelGameIfTimedOut => {
                        status == GameStatus::WaitingForPlayer2
                    }
                    Operation::AuthorizeSessionSigner => {
                        status == GameStatus::WaitingForPlayer2 || status == GameStatus::Active
                    }
                    Operation::SettleGame => status == GameStatus::Finished,
                    _ => status == GameStatus::Active,
                };
                assert_eq!(check_permission(op, role, status).is_ok(), open);
            }
        }
    }
}

#[test]
fn permission_table_for_outsiders() {
    for op in ALL_OPERATIONS {
        for status in ALL_STATUSES {
            let result = check_permission(op, CallerRole::Neither, status);
            match op {
                Operation::AuthorizeSessionSigner
                | Operation::StartRound
                | Operation::CommitMove
                | Operation::RevealMove => assert_eq!(result, Err(RpsError::NotAPlayer)),
                _ => assert_eq!(result, check_permission(op, CallerRole::Player1, status)),
            }
        }
    }
}

#[test]
fn permission_table_errors_by_operation() {
    let wrong = GameStatus::Settled;
    let role = CallerRole::Player2;
    assert_eq!(check_permission(Operation::JoinGame, role, wrong), Err(RpsError::GameNotJoinable));
    assert_eq!(
        check_permission(Operation::AuthorizeSessionSigner, role, wrong),
        Err(RpsError::InvalidGameState)
    );
    assert_eq!(check_permission(Operation::StartRound, role, wrong), Err(RpsError::GameNotActive));
    assert_eq!(check_permission(Operation::CommitMove, role, wrong), Err(RpsError::GameNotActive));
    assert_eq!(check_permission(Operation::RevealMove, role, wrong), Err(RpsError::GameNotActive));
    assert_eq!(
        check_permission(Operation::ResolveCommitTimeout, role, wrong),
        Err(RpsError::GameNotActive)
    );
    assert_eq!(check_permission(Operation::ForfeitGame, role, wrong), Err(RpsError::GameNotActive));
    assert_eq!(check_permission(Operation::CancelGame, role, wrong), Err(RpsError::GameNotActive));
    assert_eq!(check_permission(Operation::SettleGame, role, wrong), Err(RpsError::GameNotFinished));
    assert_eq!(
        check_permission(Operation::CancelGameIfTimedOut, role, wrong),
        Err(RpsError::GameNotCancellable)
    );
}
