//! Properties that hold of every vault and every amount, proved over the
//! outcome models that the handlers are verified against.
use vstd::prelude::*;

use crate::error::VaultError;
use crate::fee::{fee_amount, spec_apply_fee, MAX_FEE_BPS};
use crate::math::{ceil_div, lemma_ceil_div_bounds, lemma_floor_div_bounds};
use crate::operations::{
    spec_deposit, spec_deposit_exact, spec_deposit_with_fee, spec_redeem, spec_slash,
    spec_update_reward, DepositEffect,
};
use crate::state::Vault;

verus! {

/// Minting `m` shares for `paid` assets with `m * assets <= paid * shares`
/// does not lower the assets per share.
proof fn lemma_mint_keeps_price(assets: int, shares: int, paid: int, m: int) by (nonlinear_arith)
    requires
        assets >= 0,
        shares >= 0,
        m * assets <= paid * shares,
    ensures
        assets * (shares + m) <= (assets + paid) * shares,
{
}

/// Burning `burned` shares for `out` assets with `out * shares <= burned * assets`
/// does not lower the assets per share.
proof fn lemma_burn_keeps_price(assets: int, shares: int, burned: int, out: int) by (nonlinear_arith)
    requires
        out * shares <= burned * assets,
    ensures
        assets * (shares - burned) <= (assets - out) * shares,
{
}

/// Shares minted into a non-empty pool, at most at the pool's price.
proof fn lemma_minted_at_price(amount: u64, shares: u64, assets: u64)
    requires
        shares > 0,
        assets > 0,
    ensures
        (amount * shares / (assets as int)) * assets <= amount * shares,
        amount * shares < (amount * shares / (assets as int)) * assets + assets,
{
    lemma_floor_div_bounds(amount * shares, assets as int);
}

/// A redemption pays out at most the recorded assets.
proof fn lemma_redeem_within_assets(v: Vault, amount: u64)
    ensures
        spec_redeem(v, amount) matches Ok((nv, e)) ==> {
            &&& e.assets_to_user <= v.assets
            &&& nv.assets == v.assets - e.assets_to_user
            &&& nv.shares == v.shares - amount
        },
{
    if amount <= v.shares && v.shares > 0 {
        let (s, a, t) = (amount as int, v.assets as int, v.shares as int);
        lemma_floor_div_bounds(s * a, t);
        let out = s * a / t;
        assert(out <= a) by (nonlinear_arith)
            requires
                out * t <= s * a,
                s <= t,
                t > 0,
                a >= 0,
        ;
    }
}

/// Solvency is inductive: where the recorded assets do not exceed the real
/// balance of the vault's asset account before an operation, they do not
/// exceed it after the operation once the host has moved what its effect
/// names. A reward must be backed by the balance it claims; a slash only
/// lowers the record.
pub proof fn lemma_solvency(v: Vault, balance: int, amount: u64)
    requires
        v.assets <= balance,
    ensures
        spec_deposit(v, amount) matches Ok((nv, e)) ==> nv.assets <= balance + e.assets_to_vault,
        spec_deposit_with_fee(v, amount) matches Ok((nv, e)) ==> nv.assets <= balance
            + e.assets_to_vault,
        spec_deposit_exact(v, amount) matches Ok((nv, e)) ==> nv.assets <= balance
            + e.assets_to_vault,
        spec_redeem(v, amount) matches Ok((nv, e)) ==> {
            &&& e.assets_to_user <= balance
            &&& nv.assets <= balance - e.assets_to_user
        },
        spec_update_reward(v, amount) matches Ok((nv, _)) ==> (amount <= balance ==> nv.assets
            <= balance),
        spec_slash(v, amount) matches Ok((nv, _)) ==> nv.assets <= balance,
{
    lemma_redeem_within_assets(v, amount);
}

/// No dilution: deposits (with or without fee, inexact or exact), redemptions
/// and rewards never lower the assets per share,
/// `assets_old * shares_new <= assets_new * shares_old`. An empty pool must
/// hold no assets for the ratio to be compared.
pub proof fn lemma_no_dilution(v: Vault, amount: u64)
    requires
        v.shares == 0 ==> v.assets == 0,
    ensures
        spec_deposit(v, amount) matches Ok((nv, _)) ==> v.assets * nv.shares <= nv.assets
            * v.shares,
        spec_deposit_with_fee(v, amount) matches Ok((nv, _)) ==> v.assets * nv.shares
            <= nv.assets * v.shares,
        spec_deposit_exact(v, amount) matches Ok((nv, _)) ==> v.assets * nv.shares
            <= nv.assets * v.shares,
        spec_redeem(v, amount) matches Ok((nv, _)) ==> v.assets * nv.shares <= nv.assets
            * v.shares,
        spec_update_reward(v, amount) matches Ok((nv, _)) ==> v.assets * nv.shares
            <= nv.assets * v.shares,
{
    lemma_deposit_keeps_price(v, amount);
    lemma_redeem_within_assets(v, amount);
    if let Ok((net, _)) = spec_apply_fee(amount, v.fee_bps) {
        lemma_deposit_keeps_price(v, net);
    }
    if v.shares > 0 {
        let c = ceil_div(amount * v.assets, v.shares as int);
        lemma_ceil_div_bounds(amount * v.assets, v.shares as int);
        lemma_mint_keeps_price(v.assets as int, v.shares as int, c, amount as int);
        let out = amount * v.assets / (v.shares as int);
        lemma_floor_div_bounds(amount * v.assets, v.shares as int);
        lemma_burn_keeps_price(v.assets as int, v.shares as int, amount as int, out);
    }
    if let Ok((nv, _)) = spec_update_reward(v, amount) {
        assert(v.assets * v.shares <= nv.assets * v.shares) by (nonlinear_arith)
            requires
                v.assets <= nv.assets,
        ;
    }
}

proof fn lemma_deposit_keeps_price(v: Vault, amount: u64)
    requires
        v.shares == 0 ==> v.assets == 0,
    ensures
        spec_deposit(v, amount) matches Ok((nv, _)) ==> v.assets * nv.shares <= nv.assets
            * v.shares,
{
    if v.shares > 0 && v.assets > 0 {
        lemma_minted_at_price(amount, v.shares, v.assets);
        let m = amount * v.shares / (v.assets as int);
        lemma_mint_keeps_price(v.assets as int, v.shares as int, amount as int, m);
    }
}

/// With a zero fee, the fee-taking deposit is the plain deposit: the same
/// new record and the same effect, or the same error.
pub proof fn lemma_feeless_equivalence(v: Vault, amount: u64)
    requires
        v.fee_bps == 0,
    ensures
        spec_deposit_with_fee(v, amount) == spec_deposit(v, amount),
{
    assert(fee_amount(amount as int, 0) == 0);
}

/// The fee-taking deposit moves the whole gross amount: the fee, rounded
/// down, to the fee account and the rest into the vault. The plain deposit
/// takes no fee.
pub proof fn lemma_fee_assessed(v: Vault, amount: u64)
    ensures
        spec_deposit_with_fee(v, amount) matches Ok((_, e)) ==> {
            &&& e.assets_to_fee == fee_amount(amount as int, v.fee_bps as int)
            &&& e.assets_to_vault + e.assets_to_fee == amount
        },
        spec_deposit(v, amount) matches Ok((_, e)) ==> {
            &&& e.assets_to_fee == 0
            &&& e.assets_to_vault == amount
        },
{
}

/// On a consistent vault whose shares do not outnumber its assets, a
/// fee-taking deposit that keeps the asset total in range fails, if at all,
/// only because it would mint no share.
pub proof fn lemma_deposit_with_fee_liveness(v: Vault, amount: u64)
    requires
        v.wf(),
        v.shares <= v.assets,
        v.assets + amount <= u64::MAX,
    ensures
        spec_deposit_with_fee(v, amount) is Ok || spec_deposit_with_fee(v, amount) == Err::<
            (Vault, DepositEffect),
            VaultError,
        >(VaultError::GuardFail),
{
    assert(fee_amount(amount as int, v.fee_bps as int) <= amount) by (nonlinear_arith)
        requires
            v.fee_bps <= MAX_FEE_BPS,
    ;
    if let Ok((net, _)) = spec_apply_fee(amount, v.fee_bps) {
        if v.shares > 0 {
            lemma_minted_at_price(net, v.shares, v.assets);
            let m = net * v.shares / (v.assets as int);
            assert(m <= net) by (nonlinear_arith)
                requires
                    m * v.assets <= net * v.shares,
                    v.shares <= v.assets,
                    v.assets > 0,
                    m >= 0,
            ;
        }
    }
}

/// An exact deposit followed by the redemption of the shares it minted never
/// returns more than was paid, and returns at most one asset unit less.
pub proof fn lemma_exact_round_trip_loss(v: Vault, desired: u64)
    ensures
        spec_deposit_exact(v, desired) matches Ok((v1, d)) ==> (spec_redeem(v1, d.shares_to_user) matches Ok((_, r))
            && r.assets_to_user <= d.assets_to_vault && d.assets_to_vault <= r.assets_to_user + 1),
{
    if let Ok((v1, d)) = spec_deposit_exact(v, desired) {
        let (s, a, k) = (v.shares as int, v.assets as int, desired as int);
        let c = d.assets_to_vault as int;
        lemma_ceil_div_bounds(k * a, s);
        lemma_floor_div_bounds(k * (a + c), s + k);
        let out = k * (a + c) / (s + k);
        assert(out <= c && c <= out + 1) by (nonlinear_arith)
            requires
                k * a <= c * s,
                c * s < k * a + s,
                out * (s + k) <= k * (a + c),
                k * (a + c) < out * (s + k) + (s + k),
                s > 0,
                k > 0,
        ;
    }
}

/// A deposit followed by the redemption of the shares it minted never
/// returns more than was deposited, and loses at most the price of one
/// share, `⌈assets / shares⌉`, taken before the deposit.
pub proof fn lemma_deposit_round_trip_loss(v: Vault, amount: u64)
    requires
        v.shares > 0,
    ensures
        spec_deposit(v, amount) matches Ok((v1, d)) ==> (spec_redeem(v1, d.shares_to_user) matches Ok((_, r))
            && r.assets_to_user <= amount && amount <= r.assets_to_user + ceil_div(
            v.assets as int,
            v.shares as int,
        )),
{
    if let Ok((v1, d)) = spec_deposit(v, amount) {
        let (s, a, x) = (v.shares as int, v.assets as int, amount as int);
        let m = d.shares_to_user as int;
        lemma_minted_at_price(amount, v.shares, v.assets);
        lemma_ceil_div_bounds(a, s);
        let p = ceil_div(a, s);
        lemma_floor_div_bounds(m * (a + x), s + m);
        let out = m * (a + x) / (s + m);
        assert(out <= x && x <= out + p) by (nonlinear_arith)
            requires
                m * a <= x * s,
                x * s < m * a + a,
                a <= p * s,
                out * (s + m) <= m * (a + x),
                m * (a + x) < out * (s + m) + (s + m),
                s > 0,
                m > 0,
                p >= 0,
        ;
    }
}

/// The one-share bound on the loss of a deposit round trip cannot be
/// lowered: some vault with no more shares than assets loses exactly
/// `⌈assets / shares⌉`.
pub proof fn lemma_deposit_round_trip_bound_is_tight(v: Vault)
    ensures
        exists|w: Vault, amount: u64|
            {
                &&& 0 < w.shares <= w.assets
                &&& #[trigger] spec_deposit(w, amount) matches Ok((w1, d))
                &&& spec_redeem(w1, d.shares_to_user) matches Ok((_, r))
                &&& amount - r.assets_to_user == ceil_div(w.assets as int, w.shares as int)
            },
{
    let w = Vault { shares: 5, assets: 8, ..v };
    assert(3 * 5 / 8 == 1);
    assert(1 * 11 / 6 == 1);
    assert(ceil_div(8, 5) == 2);
    assert(spec_deposit(w, 3) matches Ok((w1, d)) && spec_redeem(w1, d.shares_to_user) matches Ok((_, r)) && 3 - r.assets_to_user == 2);
}

/// A depositor who then donates to the vault as a reward and redeems the
/// shares they got back never ends with more than they put in. An empty pool
/// must hold no assets, or the first depositor would collect them.
pub proof fn lemma_no_profit_from_donation(v: Vault, amount: u64, donation: u64)
    requires
        v.shares == 0 ==> v.assets == 0,
    ensures
        spec_deposit(v, amount) matches Ok((v1, d)) ==> (v1.assets + donation <= u64::MAX ==> (
        spec_update_reward(v1, (v1.assets + donation) as u64) matches Ok((v2, _))
            && spec_redeem(v2, d.shares_to_user) matches Ok((_, r))
            && r.assets_to_user <= amount + donation)),
{
    if let Ok((v1, d)) = spec_deposit(v, amount) {
        if v1.assets + donation <= u64::MAX {
            let (s, a, x, y) = (v.shares as int, v.assets as int, amount as int, donation as int);
            let m = d.shares_to_user as int;
            if s > 0 {
                lemma_minted_at_price(amount, v.shares, v.assets);
            }
            assert(m * a <= x * s);
            lemma_floor_div_bounds(m * (a + x + y), s + m);
            let out = m * (a + x + y) / (s + m);
            assert(out <= x + y) by (nonlinear_arith)
                requires
                    m * a <= x * s,
                    out * (s + m) <= m * (a + x + y),
                    s >= 0,
                    m > 0,
                    y >= 0,
            ;
        }
    }
}

/// Consistency of the record is kept by every operation but a slash; a slash
/// keeps it unless it takes every asset from outstanding shares.
pub proof fn lemma_wf_preserved(v: Vault, amount: u64)
    requires
        v.wf(),
    ensures
        spec_deposit(v, amount) matches Ok((nv, _)) ==> nv.wf(),
        spec_deposit_with_fee(v, amount) matches Ok((nv, _)) ==> nv.wf(),
        spec_deposit_exact(v, amount) matches Ok((nv, _)) ==> nv.wf(),
        spec_redeem(v, amount) matches Ok((nv, _)) ==> nv.wf(),
        spec_update_reward(v, amount) matches Ok((nv, _)) ==> nv.wf(),
        spec_slash(v, amount) matches Ok((nv, _)) ==> (nv.wf() <==> (nv.shares > 0 ==> nv.assets
            > 0)),
{
    lemma_redeem_within_assets(v, amount);
    if amount < v.shares {
        let (s, a, k) = (v.shares as int, v.assets as int, amount as int);
        lemma_floor_div_bounds(k * a, s);
        let out = k * a / s;
        assert(out < a) by (nonlinear_arith)
            requires
                out * s <= k * a,
                0 <= k < s,
                a > 0,
        ;
    }
}

/// The attacker's share of the pool after the victim buys in, against what
/// they put in: `x * q * (p + t + 1) < (x + y + 1) * (p + t) * p` where
/// `p = n + x` and `q = p + y`.
proof fn lemma_attack_bound(n: int, x: int, y: int, t: int)
    requires
        n >= 1,
        x > 0,
        y >= 0,
        t >= 0,
    ensures
        x * (n + x + y) * (n + x + t + 1) < (x + y + 1) * (n + x + t) * (n + x),
{
    let p = n + x;
    let q = p + y;
    let k = p + t;
    assert(x * q * (k + 1) == x * p * k + x * y * k + x * p + x * y) by (nonlinear_arith)
        requires
            q == p + y,
    ;
    assert((x + y + 1) * k * p == x * p * k + y * k * n + x * y * k + k * p) by (nonlinear_arith)
        requires
            p == n + x,
    ;
    assert(x * p < k * p) by (nonlinear_arith)
        requires
            x < k,
            p > 0,
    ;
    assert(x * y <= y * k * n) by (nonlinear_arith)
        requires
            0 < x <= k,
            y >= 0,
            n >= 1,
    ;
}

/// The donation attack does not pay on a seeded pool: where the vault starts
/// with as many shares as assets, and at least one, a depositor who donates
/// to the vault, lets another depositor buy in at the raised price and then
/// redeems never ends with more than they put in. On an empty pool it pays.
pub proof fn lemma_inflation_attack_unprofitable(
    v: Vault,
    amount: u64,
    donation: u64,
    victim_amount: u64,
)
    requires
        v.shares == v.assets,
        v.shares > 0,
    ensures
        spec_deposit(v, amount) matches Ok((v1, d)) ==> (v1.assets + donation <= u64::MAX ==> (
        spec_update_reward(v1, (v1.assets + donation) as u64) matches Ok((v2, _)) && (spec_deposit(
            v2,
            victim_amount,
        ) matches Ok((v3, _)) ==> (spec_redeem(v3, d.shares_to_user) matches Ok((_, r))
            && r.assets_to_user <= amount + donation)))),
{
    if let Ok((v1, d)) = spec_deposit(v, amount) {
        if v1.assets + donation <= u64::MAX {
            let v2 = Vault { assets: (v1.assets + donation) as u64, ..v1 };
            if let Ok((v3, e)) = spec_deposit(v2, victim_amount) {
                let (n, x, y, a) = (
                    v.shares as int,
                    amount as int,
                    donation as int,
                    victim_amount as int,
                );
                lemma_minted_at_price(amount, v.shares, v.assets);
                assert(d.shares_to_user == x) by (nonlinear_arith)
                    requires
                        d.shares_to_user * n <= x * n,
                        x * n < d.shares_to_user * n + n,
                        n > 0,
                ;
                let p = n + x;
                let q = p + y;
                let t = e.shares_to_user as int;
                lemma_minted_at_price(victim_amount, v2.shares, v2.assets);
                assert(a * p < t * q + q);
                assert(a * p < (t + 1) * q) by (nonlinear_arith)
                    requires
                        a * p < t * q + q,
                ;
                lemma_floor_div_bounds(x * (q + a), p + t);
                let out = x * (q + a) / (p + t);
                assert(x * (q + a) * p < x * q * (p + t + 1)) by (nonlinear_arith)
                    requires
                        a * p < (t + 1) * q,
                        x > 0,
                        p > 0,
                ;
                lemma_attack_bound(n, x, y, t);
                assert(out * (p + t) * p < (x + y + 1) * (p + t) * p) by (nonlinear_arith)
                    requires
                        out * (p + t) <= x * (q + a),
                        x * (q + a) * p < (x + y + 1) * (p + t) * p,
                        p > 0,
                ;
                assert(out <= x + y) by (nonlinear_arith)
                    requires
                        out * (p + t) * p < (x + y + 1) * (p + t) * p,
                        p > 0,
                        p + t > 0,
                ;
            }
        }
    }
}

} // verus!
