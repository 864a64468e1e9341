//! Conversion between asset amounts and share amounts at the vault's price.
//!
//! All conversions take the totals as they stand before the operation that
//! asks for them. Minting and redemption round down and the exact-output
//! direction rounds up, so the acting party never gains from rounding.
use vstd::prelude::*;

use crate::error::{VaultError, VaultResult};
use crate::math::{ceil_div, fit_u64, mul_div_ceil, mul_div_floor};

verus! {

/// Shares minted for `amount` assets: one for one into an empty pool, else
/// `⌊amount * shares / assets⌋`.
pub open spec fn spec_assets_to_shares(amount: u64, shares: u64, assets: u64) -> VaultResult<u64> {
    if shares == 0 {
        Ok(amount)
    } else if assets == 0 {
        Err(VaultError::Unspecified)
    } else {
        fit_u64(amount * shares / (assets as int))
    }
}

/// Assets paid out for `amount` shares: `⌊amount * assets / shares⌋`.
pub open spec fn spec_shares_to_assets(amount: u64, shares: u64, assets: u64) -> VaultResult<u64> {
    if shares == 0 {
        Err(VaultError::Unspecified)
    } else {
        fit_u64(amount * assets / (shares as int))
    }
}

/// Assets needed to mint exactly `desired` shares: `⌈desired * assets / shares⌉`.
pub open spec fn spec_assets_for_exact_shares(desired: u64, shares: u64, assets: u64) -> VaultResult<u64> {
    if shares == 0 {
        Err(VaultError::Unspecified)
    } else {
        fit_u64(ceil_div(desired * assets, shares as int))
    }
}

/// Converts an asset amount into the shares it mints, rounding down.
pub fn assets_to_shares(amount: u64, shares_total: u64, assets_total: u64) -> (r: VaultResult<u64>)
    ensures
        r == spec_assets_to_shares(amount, shares_total, assets_total),
{
    if shares_total == 0 {
        Ok(amount)
    } else if assets_total == 0 {
        Err(VaultError::Unspecified)
    } else {
        mul_div_floor(amount, shares_total, assets_total)
    }
}

/// Converts a share amount into the assets it redeems, rounding down.
pub fn shares_to_assets(amount: u64, shares_total: u64, assets_total: u64) -> (r: VaultResult<u64>)
    ensures
        r == spec_shares_to_assets(amount, shares_total, assets_total),
{
    if shares_total == 0 {
        Err(VaultError::Unspecified)
    } else {
        mul_div_floor(amount, assets_total, shares_total)
    }
}

/// The asset amount that mints exactly `desired_shares`, rounding up.
pub fn assets_for_exact_shares(desired_shares: u64, shares_total: u64, assets_total: u64) -> (r:
    VaultResult<u64>)
    ensures
        r == spec_assets_for_exact_shares(desired_shares, shares_total, assets_total),
{
    if shares_total == 0 {
        Err(VaultError::Unspecified)
    } else {
        mul_div_ceil(desired_shares, assets_total, shares_total)
    }
}

} // verus!
