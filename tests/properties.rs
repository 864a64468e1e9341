use vault::operations::{
    vault_deposit_assets, vault_deposit_assets_exact, vault_redeem_shares, vault_slash,
    vault_update_reward,
};
use vault::state::Vault;
use vault::VaultError;

fn vault_with(shares: u64, assets: u64) -> Vault {
    Vault {
        admin: [1; 32],
        shares_mint: [2; 32],
        assets_mint: [3; 32],
        shares,
        assets,
        vault_assets_account: [4; 32],
        fee_bps: 0,
        fee_token_account: [5; 32],
    }
}

fn price_not_lower(before: &Vault, after: &Vault) -> bool {
    (before.assets as u128) * (after.shares as u128) <= (after.assets as u128) * (before.shares as u128)
}

/// Assets paid and returned by a deposit followed by the redemption of what it minted.
fn round_trip(shares: u64, assets: u64, amount: u64) -> (u64, u64) {
    let mut v = vault_with(shares, assets);
    let d = vault_deposit_assets(&mut v, amount).unwrap();
    let r = vault_redeem_shares(&mut v, d.shares_to_user).unwrap();
    (d.assets_to_vault + d.assets_to_fee, r.assets_to_user)
}

#[test]
fn solvency_follows_the_ledger() {
    let mut v = vault_with(1000, 1000);
    let mut balance: u64 = 1200;
    let d = vault_deposit_assets(&mut v, 333).unwrap();
    balance += d.assets_to_vault;
    assert!(v.assets <= balance);
    let r = vault_redeem_shares(&mut v, 700).unwrap();
    balance -= r.assets_to_user;
    assert!(v.assets <= balance);
    let e = vault_deposit_assets_exact(&mut v, 11).unwrap();
    balance += e.assets_to_vault;
    assert!(v.assets <= balance);
    vault_slash(&mut v, 10).unwrap();
    assert!(v.assets <= balance);
}

#[test]
fn operations_do_not_dilute() {
    let start = vault_with(7, 23);
    let mut v = start;
    vault_deposit_assets(&mut v, 10).unwrap();
    assert!(price_not_lower(&start, &v));
    let mid = v;
    vault_redeem_shares(&mut v, 5).unwrap();
    assert!(price_not_lower(&mid, &v));
    let mid = v;
    vault_deposit_assets_exact(&mut v, 3).unwrap();
    assert!(price_not_lower(&mid, &v));
    let mid = v;
    let target = v.assets + 9;
    vault_update_reward(&mut v, target).unwrap();
    assert!(price_not_lower(&mid, &v));
    let mid = v;
    let target = v.assets - 9;
    vault_slash(&mut v, target).unwrap();
    assert!(!price_not_lower(&mid, &v));
}

#[test]
fn exact_round_trip_loses_at_most_one_unit() {
    for (shares, assets, desired) in [(3, 10, 2), (5, 8, 3), (1000, 1001, 7), (7, 7, 1)] {
        let mut v = vault_with(shares, assets);
        let d = vault_deposit_assets_exact(&mut v, desired).unwrap();
        let r = vault_redeem_shares(&mut v, desired).unwrap();
        assert!(r.assets_to_user <= d.assets_to_vault);
        assert!(d.assets_to_vault <= r.assets_to_user + 1);
    }
    let mut v = vault_with(3, 10);
    let d = vault_deposit_assets_exact(&mut v, 2).unwrap();
    let r = vault_redeem_shares(&mut v, 2).unwrap();
    assert_eq!((d.assets_to_vault, r.assets_to_user), (7, 6));
}

#[test]
fn deposit_round_trip_loses_at_most_one_share_price() {
    for (shares, assets, amount) in [(3, 10, 7), (1, 1000, 1085), (7, 18, 5), (1000, 1000, 500)] {
        let (paid, back) = round_trip(shares, assets, amount);
        let price = (assets + shares - 1) / shares;
        assert!(back <= paid);
        assert!(paid <= back + price);
    }
}

#[test]
fn deposit_round_trip_bound_is_reached() {
    // ceil(8 / 5) = 2 is lost in full
    assert_eq!(round_trip(5, 8, 3), (3, 1));
}

#[test]
fn deposit_round_trip_loss_is_not_bounded_by_a_constant() {
    let (paid, back) = round_trip(1, 1000, 1085);
    assert_eq!((paid, back), (1085, 1042));
    assert!(paid > back + 42);
}

#[test]
fn donating_depositor_does_not_profit() {
    for (shares, assets, amount, donation) in [(0, 0, 1, 100), (1000, 1000, 10, 1), (3, 10, 7, 5), (5, 5, 2, 2)] {
        let mut v = vault_with(shares, assets);
        let d = vault_deposit_assets(&mut v, amount).unwrap();
        let target = v.assets + donation;
        vault_update_reward(&mut v, target).unwrap();
        let r = vault_redeem_shares(&mut v, d.shares_to_user).unwrap();
        assert!(r.assets_to_user <= amount + donation);
    }
}

#[test]
fn donation_can_take_value_from_a_later_depositor() {
    let mut v = vault_with(0, 0);
    let bob = vault_deposit_assets(&mut v, 1).unwrap();
    let target = v.assets + 100;
    vault_update_reward(&mut v, target).unwrap();
    let alice = vault_deposit_assets(&mut v, 200).unwrap();
    assert_eq!(alice.shares_to_user, 1);
    let r = vault_redeem_shares(&mut v, bob.shares_to_user).unwrap();
    assert_eq!(r.assets_to_user, 150);
    assert!(r.assets_to_user > 1 + 100);
}

#[test]
fn seeded_pool_denies_donation_attack() {
    for (seed, amount, donation, victim) in [(1, 1, 100, 200), (2, 5, 2, 5), (10, 3, 1000, 2500), (1000, 1, 999_999, 1_000_000)] {
        let mut v = vault_with(seed, seed);
        let bob = vault_deposit_assets(&mut v, amount).unwrap();
        let target = v.assets + donation;
        vault_update_reward(&mut v, target).unwrap();
        vault_deposit_assets(&mut v, victim).unwrap();
        let r = vault_redeem_shares(&mut v, bob.shares_to_user).unwrap();
        assert!(r.assets_to_user <= amount + donation);
    }
}

#[test]
fn donor_may_break_even() {
    let mut v = vault_with(2, 2);
    let bob = vault_deposit_assets(&mut v, 5).unwrap();
    let target = v.assets + 2;
    vault_update_reward(&mut v, target).unwrap();
    let alice = vault_deposit_assets(&mut v, 5).unwrap();
    assert_eq!((bob.shares_to_user, alice.shares_to_user), (5, 3));
    let r = vault_redeem_shares(&mut v, bob.shares_to_user).unwrap();
    assert_eq!(r.assets_to_user, 5 + 2);
}

#[test]
fn new_vault_and_validation() {
    let v = Vault::new([1; 32], [2; 32], [3; 32], [4; 32], 50, [5; 32]).unwrap();
    assert_eq!((v.num_shares(), v.num_assets()), (0, 0));
    assert_eq!(v.fee_in_bps(), Ok(50));
    assert_eq!(v.validate(), Ok(()));
    assert_eq!(Vault::new([1; 32], [2; 32], [3; 32], [4; 32], 10_001, [5; 32]), Err(VaultError::GuardFail));
    let mut bad = vault_with(5, 0);
    assert_eq!(bad.validate(), Err(VaultError::GuardFail));
    bad.assets = 1;
    bad.fee_bps = 10_001;
    assert_eq!(bad.validate(), Err(VaultError::GuardFail));
    assert_eq!(bad.fee_in_bps(), Err(VaultError::GuardFail));
}

#[test]
fn account_identities() {
    let v = vault_with(0, 0);
    assert!(v.matches_accounts(&[3; 32], &[2; 32], &[4; 32]));
    assert!(!v.matches_accounts(&[2; 32], &[3; 32], &[4; 32]));
    let mut near = [4u8; 32];
    near[31] = 5;
    assert!(!v.matches_accounts(&[3; 32], &[2; 32], &near));
    assert!(v.matches_assets_account(&[4; 32]));
    assert!(!v.matches_assets_account(&near));
    assert_eq!(v.check_counterparty(&[4; 32]), Err(VaultError::SelfTransfer));
    assert_eq!(v.check_counterparty(&near), Ok(()));
}
