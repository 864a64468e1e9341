use vstd::prelude::*;

verus! {

/// Why a vault operation was refused. A refused operation leaves the vault
/// record untouched.
#[derive(Debug, Clone, Copy, PartialEq, Eq, Structural)]
pub enum VaultError {
    /// Internal inconsistency, such as a conversion against an empty share pool.
    Unspecified,
    /// An amount left the range of a 64-bit unsigned integer.
    MathOverflow,
    /// A precondition of the operation does not hold.
    GuardFail,
    /// Value would move to or from the same party.
    SelfTransfer,
}

pub type VaultResult<T> = Result<T, VaultError>;

impl VaultError {
    /// Numeric code of the error, as reported to the host.
    pub open spec fn spec_code(self) -> u32 {
        match self {
            VaultError::Unspecified => 0,
            VaultError::MathOverflow => 1,
            VaultError::GuardFail => 2,
            VaultError::SelfTransfer => 3,
        }
    }

    pub fn code(&self) -> (r: u32)
        ensures
            r == self.spec_code(),
    {
        match self {
            VaultError::Unspecified => 0,
            VaultError::MathOverflow => 1,
            VaultError::GuardFail => 2,
            VaultError::SelfTransfer => 3,
        }
    }
}

} // verus!
