//! The persisted vault record.
use vstd::prelude::*;

use crate::error::{VaultError, VaultResult};
use crate::fee::MAX_FEE_BPS;

verus! {

/// Identity of an account or a mint on the host ledger.
pub type Address = [u8; 32];

/// The vault's persisted state: its totals, the identities it bridges and
/// its fee configuration.
#[derive(Debug, Clone, Copy, PartialEq, Eq)]
pub struct Vault {
    /// Identity allowed to run privileged operations.
    pub admin: Address,
    /// Mint of the share token.
    pub shares_mint: Address,
    /// Mint of the asset token.
    pub assets_mint: Address,
    /// Total outstanding shares.
    pub shares: u64,
    /// Total assets that back the shares.
    pub assets: u64,
    /// Token account that holds the vault's real asset balance.
    pub vault_assets_account: Address,
    /// Deposit fee in basis points.
    pub fee_bps: u64,
    /// Token account that receives collected fees.
    pub fee_token_account: Address,
}

impl Vault {
    /// The record is consistent: the fee is in range, and outstanding shares
    /// are backed by some assets, so that the price of a share is defined.
    pub open spec fn wf(self) -> bool {
        &&& self.fee_bps <= MAX_FEE_BPS
        &&& self.shares > 0 ==> self.assets > 0
    }

    /// Creates an empty vault; fails with `GuardFail` if the fee is out of range.
    pub fn new(
        admin: Address,
        shares_mint: Address,
        assets_mint: Address,
        vault_assets_account: Address,
        fee_bps: u64,
        fee_token_account: Address,
    ) -> (r: VaultResult<Vault>)
        ensures
            fee_bps > MAX_FEE_BPS <==> r == Err::<Vault, VaultError>(VaultError::GuardFail),
            r matches Ok(v) ==> ({
                &&& v.wf()
                &&& v.shares == 0
                &&& v.assets == 0
                &&& v.fee_bps == fee_bps
                &&& v.admin == admin
                &&& v.shares_mint == shares_mint
                &&& v.assets_mint == assets_mint
                &&& v.vault_assets_account == vault_assets_account
                &&& v.fee_token_account == fee_token_account
            }),
    {
        if fee_bps > MAX_FEE_BPS {
            return Err(VaultError::GuardFail);
        }
        Ok(Vault {
            admin,
            shares_mint,
            assets_mint,
            shares: 0,
            assets: 0,
            vault_assets_account,
            fee_bps,
            fee_token_account,
        })
    }

    /// Total outstanding shares.
    pub fn num_shares(&self) -> (r: u64)
        ensures
            r == self.shares,
    {
        self.shares
    }

    /// Total assets backing the shares.
    pub fn num_assets(&self) -> (r: u64)
        ensures
            r == self.assets,
    {
        self.assets
    }

    /// The configured fee, or `GuardFail` where it is out of range.
    pub fn fee_in_bps(&self) -> (r: VaultResult<u64>)
        ensures
            r == (if self.fee_bps <= MAX_FEE_BPS {
                Ok::<u64, VaultError>(self.fee_bps)
            } else {
                Err(VaultError::GuardFail)
            }),
    {
        if self.fee_bps <= MAX_FEE_BPS {
            Ok(self.fee_bps)
        } else {
            Err(VaultError::GuardFail)
        }
    }

    /// Checks the record's consistency; `GuardFail` where it does not hold.
    pub fn validate(&self) -> (r: VaultResult<()>)
        ensures
            r is Ok <==> self.wf(),
            r is Err ==> r == Err::<(), VaultError>(VaultError::GuardFail),
    {
        if self.fee_bps > MAX_FEE_BPS {
            return Err(VaultError::GuardFail);
        }
        if self.shares > 0 && self.assets == 0 {
            return Err(VaultError::GuardFail);
        }
        Ok(())
    }

    /// The mints and the asset account that a deposit or a redemption names
    /// are the vault's own.
    pub fn matches_accounts(
        &self,
        assets_mint: &Address,
        shares_mint: &Address,
        vault_assets_account: &Address,
    ) -> (r: bool)
        ensures
            r == (self.assets_mint@ == assets_mint@ && self.shares_mint@ == shares_mint@
                && self.vault_assets_account@ == vault_assets_account@),
    {
        same_address(&self.assets_mint, assets_mint) && same_address(&self.shares_mint, shares_mint)
            && same_address(&self.vault_assets_account, vault_assets_account)
    }

    /// The asset account that a reward update names is the vault's own.
    pub fn matches_assets_account(&self, vault_assets_account: &Address) -> (r: bool)
        ensures
            r == (self.vault_assets_account@ == vault_assets_account@),
    {
        same_address(&self.vault_assets_account, vault_assets_account)
    }

    /// Refuses a counterparty account that is the vault's own asset account:
    /// value would move from the vault to itself.
    pub fn check_counterparty(&self, user_assets_account: &Address) -> (r: VaultResult<()>)
        ensures
            r == (if self.vault_assets_account@ == user_assets_account@ {
                Err::<(), VaultError>(VaultError::SelfTransfer)
            } else {
                Ok(())
            }),
    {
        if same_address(&self.vault_assets_account, user_assets_account) {
            Err(VaultError::SelfTransfer)
        } else {
            Ok(())
        }
    }
}

/// Whether two identities are the same, byte for byte.
pub fn same_address(a: &Address, b: &Address) -> (r: bool)
    ensures
        r == (a@ == b@),
{
    let mut i: usize = 0;
    while i < 32
        invariant
            0 <= i <= 32,
            a@.len() == 32,
            b@.len() == 32,
            forall|j: int| 0 <= j < i ==> a@[j] == b@[j],
        decreases 32 - i,
    {
        if a[i] != b[i] {
            return false;
        }
        i += 1;
    }
    assert(a@ =~= b@);
    true
}

} // verus!
