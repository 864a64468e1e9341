use vault::math::{add_amounts, mul_div_ceil, mul_div_floor, sub_amounts};
use vault::VaultError;

#[test]
fn ratio_uses_a_wide_intermediate() {
    assert_eq!(mul_div_floor(u64::MAX, u64::MAX, u64::MAX), Ok(u64::MAX));
    assert_eq!(mul_div_floor(u64::MAX, 3, 4), Ok(13835058055282163711));
    assert_eq!(mul_div_floor(u64::MAX, 2, 1), Err(VaultError::MathOverflow));
}

#[test]
fn ratio_rounding_modes() {
    assert_eq!(mul_div_floor(10, 1, 3), Ok(3));
    assert_eq!(mul_div_ceil(10, 1, 3), Ok(4));
    assert_eq!(mul_div_ceil(9, 1, 3), Ok(3));
    assert_eq!(mul_div_ceil(0, 5, 3), Ok(0));
    assert_eq!(mul_div_ceil(u64::MAX, u64::MAX, u64::MAX), Ok(u64::MAX));
    assert_eq!(mul_div_ceil(u64::MAX, 2, 2), Ok(u64::MAX));
    assert_eq!(mul_div_ceil(u64::MAX, 3, 2), Err(VaultError::MathOverflow));
}

#[test]
fn checked_sums() {
    assert_eq!(add_amounts(u64::MAX - 1, 1), Ok(u64::MAX));
    assert_eq!(add_amounts(u64::MAX, 1), Err(VaultError::MathOverflow));
    assert_eq!(sub_amounts(5, 5), Ok(0));
    assert_eq!(sub_amounts(4, 5), Err(VaultError::MathOverflow));
}

#[test]
fn error_codes() {
    assert_eq!(VaultError::Unspecified.code(), 0);
    assert_eq!(VaultError::MathOverflow.code(), 1);
    assert_eq!(VaultError::GuardFail.code(), 2);
    assert_eq!(VaultError::SelfTransfer.code(), 3);
}
