//! The house: the fee configuration and the vault that collects entry fees
//! and the rake.

use vstd::prelude::*;
use crate::accounts::InitHouseVault;
use crate::accounts::SetHouseFee;
use crate::accounts::WithdrawHouseFunds;
use crate::escrow::transfer_with_signer;
use crate::escrow::vault_transfer;
use crate::escrow::Custody;
use crate::escrow::Transfer;
use crate::state::HouseVault;
use crate::state::RpsError;
use crate::state::DEFAULT_HOUSE_FEE_BPS;
use crate::state::MAX_HOUSE_FEE_BPS;

verus! {

/// Sets the fee configuration up: the caller becomes the administrator and
/// the fee rate starts at the default.
pub fn init_house_vault(ctx: &InitHouseVault) -> (vault: HouseVault)
    ensures
        vault.bump == ctx.bump,
        vault.admin == ctx.admin,
        vault.house_fee_bps == DEFAULT_HOUSE_FEE_BPS,
        vault.wf(),
{
    HouseVault { bump: ctx.bump, admin: ctx.admin, house_fee_bps: DEFAULT_HOUSE_FEE_BPS }
}

/// Why `set_house_fee` refuses, if it does.
pub open spec fn set_house_fee_error(vault: HouseVault, ctx: SetHouseFee, new_fee_bps: u16) -> Option<
    RpsError,
> {
    if ctx.admin != vault.admin {
        Some(RpsError::Unauthorized)
    } else if new_fee_bps > MAX_HOUSE_FEE_BPS {
        Some(RpsError::InvalidHouseFee)
    } else {
        None
    }
}

/// Changes the fee rate that matches created from now on will carry. Only
/// the administrator may, and to no more than the maximum. Matches that
/// exist keep the rate they were created with.
pub fn set_house_fee(vault: &mut HouseVault, ctx: &SetHouseFee, new_fee_bps: u16) -> (result: Result<
    (),
    RpsError,
>)
    ensures
        match result {
            Ok(_) => {
                &&& set_house_fee_error(*old(vault), *ctx, new_fee_bps) is None
                &&& *final(vault) == (HouseVault { house_fee_bps: new_fee_bps, ..*old(vault) })
            },
            Err(e) => {
                &&& set_house_fee_error(*old(vault), *ctx, new_fee_bps) == Some(e)
                &&& *final(vault) == *old(vault)
            },
        },
        result is Ok || old(vault).wf() ==> final(vault).wf(),
{
    if ctx.admin != vault.admin {
        return Err(RpsError::Unauthorized);
    }
    if new_fee_bps > MAX_HOUSE_FEE_BPS {
        return Err(RpsError::InvalidHouseFee);
    }
    vault.house_fee_bps = new_fee_bps;
    Ok(())
}

/// Pays `amount` out of the house vault to the administrator. Only the
/// administrator may ask for it. Whether the vault holds that much is for
/// the ledger to say when it carries the transfer out.
pub fn withdraw_house_funds(vault: &HouseVault, ctx: &WithdrawHouseFunds, amount: u64) -> (result:
    Result<Vec<Transfer>, RpsError>)
    ensures
        match result {
            Ok(transfers) => {
                &&& ctx.admin == vault.admin
                &&& transfers@ == vault_transfer(amount, Custody::HouseVault, Custody::Admin)
            },
            Err(e) => {
                &&& ctx.admin != vault.admin
                &&& e == RpsError::Unauthorized
            },
        },
{
    if ctx.admin != vault.admin {
        return Err(RpsError::Unauthorized);
    }
    let mut transfers: Vec<Transfer> = Vec::new();
    transfer_with_signer(amount, Custody::HouseVault, Custody::Admin, &mut transfers);
    Ok(transfers)
}

} // verus!
