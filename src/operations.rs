//! Operation handlers: each reads the totals, computes its effect from them,
//! and commits the new totals in one step, or fails and changes nothing.
use vstd::prelude::*;

use crate::convert::{
    assets_for_exact_shares, assets_to_shares, shares_to_assets, spec_assets_for_exact_shares,
    spec_assets_to_shares, spec_shares_to_assets,
};
use crate::error::{VaultError, VaultResult};
use crate::fee::{apply_fee, spec_apply_fee};
use crate::math::{add_amounts, lemma_floor_div_bounds};
use crate::state::Vault;

verus! {

/// What the host must carry out after a deposit: move `assets_to_vault` into
/// the vault's asset account and `assets_to_fee` into the fee account, and
/// mint `shares_to_user` shares to the depositor.
#[derive(Debug, Clone, Copy, PartialEq, Eq, Structural)]
pub struct DepositEffect {
    pub assets_to_vault: u64,
    pub assets_to_fee: u64,
    pub shares_to_user: u64,
}

/// What the host must carry out after a redemption: burn `shares_to_burn`
/// shares of the caller and pay `assets_to_user` out of the vault.
#[derive(Debug, Clone, Copy, PartialEq, Eq, Structural)]
pub struct RedeemEffect {
    pub shares_to_burn: u64,
    pub assets_to_user: u64,
}

/// An operation with outcome `outcome` took the vault from `before` to
/// `after` and returned `r`: on success the new record and the effect, on
/// failure the error and an untouched record.
pub open spec fn commits<E>(
    outcome: VaultResult<(Vault, E)>,
    before: Vault,
    after: Vault,
    r: VaultResult<E>,
) -> bool {
    match outcome {
        Ok((v, e)) => after == v && r == Ok::<E, VaultError>(e),
        Err(err) => after == before && r == Err::<E, VaultError>(err),
    }
}

/// Deposit of `amount` assets without a fee.
pub open spec fn spec_deposit(v: Vault, amount: u64) -> VaultResult<(Vault, DepositEffect)> {
    match spec_assets_to_shares(amount, v.shares, v.assets) {
        Err(e) => Err(e),
        Ok(minted) => {
            if minted == 0 {
                Err(VaultError::GuardFail)
            } else if v.assets + amount > u64::MAX || v.shares + minted > u64::MAX {
                Err(VaultError::MathOverflow)
            } else {
                Ok(
                    (
                        Vault {
                            shares: (v.shares + minted) as u64,
                            assets: (v.assets + amount) as u64,
                            ..v
                        },
                        DepositEffect {
                            assets_to_vault: amount,
                            assets_to_fee: 0,
                            shares_to_user: minted,
                        },
                    ),
                )
            }
        },
    }
}

/// Deposit of `amount` gross assets: the fee is split off first and only the
/// net amount buys shares.
pub open spec fn spec_deposit_with_fee(v: Vault, amount: u64) -> VaultResult<
    (Vault, DepositEffect),
> {
    match spec_apply_fee(amount, v.fee_bps) {
        Err(e) => Err(e),
        Ok((net, fee)) => match spec_deposit(v, net) {
            Err(e) => Err(e),
            Ok((nv, e)) => Ok((nv, DepositEffect { assets_to_fee: fee, ..e })),
        },
    }
}

/// Deposit that mints exactly `desired` shares for the assets they cost,
/// rounded up.
pub open spec fn spec_deposit_exact(v: Vault, desired: u64) -> VaultResult<(Vault, DepositEffect)> {
    if desired == 0 {
        Err(VaultError::GuardFail)
    } else {
        match spec_assets_for_exact_shares(desired, v.shares, v.assets) {
            Err(e) => Err(e),
            Ok(cost) => {
                if v.assets + cost > u64::MAX || v.shares + desired > u64::MAX {
                    Err(VaultError::MathOverflow)
                } else {
                    Ok(
                        (
                            Vault {
                                shares: (v.shares + desired) as u64,
                                assets: (v.assets + cost) as u64,
                                ..v
                            },
                            DepositEffect {
                                assets_to_vault: cost,
                                assets_to_fee: 0,
                                shares_to_user: desired,
                            },
                        ),
                    )
                }
            },
        }
    }
}

/// Redemption of `amount` shares for the assets they are worth, rounded down.
pub open spec fn spec_redeem(v: Vault, amount: u64) -> VaultResult<(Vault, RedeemEffect)> {
    if amount > v.shares {
        Err(VaultError::GuardFail)
    } else {
        match spec_shares_to_assets(amount, v.shares, v.assets) {
            Err(e) => Err(e),
            Ok(out) => Ok(
                (
                    Vault {
                        shares: (v.shares - amount) as u64,
                        assets: (v.assets - out) as u64,
                        ..v
                    },
                    RedeemEffect { shares_to_burn: amount, assets_to_user: out },
                ),
            ),
        }
    }
}

/// Yield injection: the asset total may only grow.
pub open spec fn spec_update_reward(v: Vault, new_assets: u64) -> VaultResult<(Vault, ())> {
    if new_assets < v.assets {
        Err(VaultError::GuardFail)
    } else {
        Ok((Vault { assets: new_assets, ..v }, ()))
    }
}

/// Loss event: the asset total may only shrink.
pub open spec fn spec_slash(v: Vault, new_assets: u64) -> VaultResult<(Vault, ())> {
    if new_assets > v.assets {
        Err(VaultError::GuardFail)
    } else {
        Ok((Vault { assets: new_assets, ..v }, ()))
    }
}

/// Deposits `amount` assets and mints the shares they buy at the current
/// price, rounded down. Fails with `GuardFail` where no share would be minted.
pub fn vault_deposit_assets(vault: &mut Vault, amount: u64) -> (r: VaultResult<DepositEffect>)
    ensures
        commits(spec_deposit(*old(vault), amount), *old(vault), *final(vault), r),
{
    let minted = match assets_to_shares(amount, vault.shares, vault.assets) {
        Ok(m) => m,
        Err(e) => {
            return Err(e);
        },
    };
    if minted == 0 {
        return Err(VaultError::GuardFail);
    }
    let new_assets = match add_amounts(vault.assets, amount) {
        Ok(a) => a,
        Err(e) => {
            return Err(e);
        },
    };
    let new_shares = match add_amounts(vault.shares, minted) {
        Ok(s) => s,
        Err(e) => {
            return Err(e);
        },
    };
    vault.assets = new_assets;
    vault.shares = new_shares;
    Ok(DepositEffect { assets_to_vault: amount, assets_to_fee: 0, shares_to_user: minted })
}

/// Deposits `amount` gross assets: the vault's fee goes to the fee account and
/// the rest buys shares as in `vault_deposit_assets`.
pub fn vault_deposit_assets_with_fee(vault: &mut Vault, amount: u64) -> (r: VaultResult<
    DepositEffect,
>)
    ensures
        commits(spec_deposit_with_fee(*old(vault), amount), *old(vault), *final(vault), r),
{
    let (net, fee) = match apply_fee(amount, vault.fee_bps) {
        Ok(split) => split,
        Err(e) => {
            return Err(e);
        },
    };
    match vault_deposit_assets(vault, net) {
        Ok(effect) => Ok(DepositEffect { assets_to_fee: fee, ..effect }),
        Err(e) => Err(e),
    }
}

/// Mints exactly `desired_shares` shares and takes the assets they cost,
/// rounded up. Fails with `GuardFail` for zero shares.
pub fn vault_deposit_assets_exact(vault: &mut Vault, desired_shares: u64) -> (r: VaultResult<
    DepositEffect,
>)
    ensures
        commits(spec_deposit_exact(*old(vault), desired_shares), *old(vault), *final(vault), r),
{
    if desired_shares == 0 {
        return Err(VaultError::GuardFail);
    }
    let cost = match assets_for_exact_shares(desired_shares, vault.shares, vault.assets) {
        Ok(c) => c,
        Err(e) => {
            return Err(e);
        },
    };
    let new_assets = match add_amounts(vault.assets, cost) {
        Ok(a) => a,
        Err(e) => {
            return Err(e);
        },
    };
    let new_shares = match add_amounts(vault.shares, desired_shares) {
        Ok(s) => s,
        Err(e) => {
            return Err(e);
        },
    };
    vault.assets = new_assets;
    vault.shares = new_shares;
    Ok(DepositEffect { assets_to_vault: cost, assets_to_fee: 0, shares_to_user: desired_shares })
}

/// Burns `amount` shares and pays out the assets they are worth, rounded
/// down. Fails with `GuardFail` where more shares are asked than exist.
pub fn vault_redeem_shares(vault: &mut Vault, amount: u64) -> (r: VaultResult<RedeemEffect>)
    ensures
        commits(spec_redeem(*old(vault), amount), *old(vault), *final(vault), r),
{
    if amount > vault.shares {
        return Err(VaultError::GuardFail);
    }
    let out = match shares_to_assets(amount, vault.shares, vault.assets) {
        Ok(o) => o,
        Err(e) => {
            return Err(e);
        },
    };
    proof {
        let (s, a, t) = (amount as int, vault.assets as int, vault.shares as int);
        lemma_floor_div_bounds(s * a, t);
        assert(out <= a) by (nonlinear_arith)
            requires
                out * t <= s * a,
                s <= t,
                t > 0,
                a >= 0,
        ;
    }
    vault.assets = vault.assets - out;
    vault.shares = vault.shares - amount;
    Ok(RedeemEffect { shares_to_burn: amount, assets_to_user: out })
}

/// Raises the asset total to `new_assets_total` (injected yield). Fails with
/// `GuardFail` where that would lower it.
pub fn vault_update_reward(vault: &mut Vault, new_assets_total: u64) -> (r: VaultResult<()>)
    ensures
        commits(spec_update_reward(*old(vault), new_assets_total), *old(vault), *final(vault), r),
{
    if new_assets_total < vault.assets {
        return Err(VaultError::GuardFail);
    }
    vault.assets = new_assets_total;
    Ok(())
}

/// Lowers the asset total to `new_assets_total` (a realised loss). Fails with
/// `GuardFail` where that would raise it.
pub fn vault_slash(vault: &mut Vault, new_assets_total: u64) -> (r: VaultResult<()>)
    ensures
        commits(spec_slash(*old(vault), new_assets_total), *old(vault), *final(vault), r),
{
    if new_assets_total > vault.assets {
        return Err(VaultError::GuardFail);
    }
    vault.assets = new_assets_total;
    Ok(())
}

} // verus!
