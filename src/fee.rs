//! The deposit fee: a basis-point share of the gross amount, rounded down.
use vstd::prelude::*;

use crate::error::{VaultError, VaultResult};
use crate::math::{mul_div_floor, sub_amounts};

verus! {

/// Basis points in a whole.
pub const BPS_DENOMINATOR: u64 = 10_000;

/// Largest fee a vault may be configured with.
pub const MAX_FEE_BPS: u64 = 10_000;

/// `⌊gross * fee_bps / 10000⌋`.
pub open spec fn fee_amount(gross: int, fee_bps: int) -> int {
    gross * fee_bps / (BPS_DENOMINATOR as int)
}

/// Splits `gross` into `(net, fee)`; fails with `MathOverflow` where the fee
/// would exceed the gross amount.
pub open spec fn spec_apply_fee(gross: u64, fee_bps: u64) -> VaultResult<(u64, u64)> {
    let fee = fee_amount(gross as int, fee_bps as int);
    if fee <= gross {
        Ok(((gross - fee) as u64, fee as u64))
    } else {
        Err(VaultError::MathOverflow)
    }
}

/// Splits a gross amount into the part that goes to the vault and the fee.
pub fn apply_fee(gross: u64, fee_bps: u64) -> (r: VaultResult<(u64, u64)>)
    ensures
        r == spec_apply_fee(gross, fee_bps),
        fee_bps <= MAX_FEE_BPS ==> r is Ok,
{
    proof {
        if fee_bps <= MAX_FEE_BPS {
            assert(fee_amount(gross as int, fee_bps as int) <= gross) by (nonlinear_arith)
                requires
                    fee_bps <= 10_000,
                    gross >= 0,
            ;
        }
    }
    let fee = match mul_div_floor(gross, fee_bps, BPS_DENOMINATOR) {
        Ok(f) => f,
        Err(e) => {
            return Err(e);
        },
    };
    match sub_amounts(gross, fee) {
        Ok(net) => Ok((net, fee)),
        Err(e) => Err(e),
    }
}

} // verus!
