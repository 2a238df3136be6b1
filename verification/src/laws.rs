//! The vault's accounting laws, stated and proved once over the spec-level
//! outcome functions so that every caller of the engine inherits them.

use vstd::prelude::*;

use vstd::arithmetic::div_mod::{
    lemma_div_is_ordered,
    lemma_div_multiples_vanish,
    lemma_fundamental_div_mod,
    lemma_mod_bound,
};
use vstd::arithmetic::mul::lemma_mul_inequality;

use crate::engine::{
    assets_for_withdraw,
    deposit_outcome,
    pause_outcome,
    shares_for_deposit,
    unpause_outcome,
    withdraw_outcome,
};
use crate::errors::VaultError;
use crate::pool::{lemma_sum_element, sum_shares, Pool};
use crate::state::Vault;

verus! {

/// Share conservation: in a well-formed pool the vault's outstanding shares
/// are exactly the sum of all position balances.  Every pool operation
/// preserves well-formedness, so this holds at every observation point.
pub proof fn lemma_share_conservation(p: Pool)
    requires
        p.wf(),
    ensures
        p.vault.total_shares == sum_shares(p.accounts@),
{
}

/// No single position outweighs the pool: a well-formed pool bounds every
/// depositor's balance by the outstanding share supply.
pub proof fn lemma_position_bounded(p: Pool, owner: u64)
    requires
        p.wf(),
    ensures
        p.balance_of(owner) <= p.vault.total_shares,
{
    if p.has_position(owner) {
        let j = p.owners@.index_of(owner);
        assert(p.owners@[j] == owner);
        lemma_sum_element(p.accounts@, j);
    }
}

/// First-deposit bootstrap: depositing `amount` into a vault with no
/// outstanding shares mints exactly `amount` shares, whenever the ledger
/// additions fit in 64 bits.
pub proof fn lemma_first_deposit_bootstrap(v: Vault, balance: u64, amount: u64)
    requires
        v.total_shares == 0,
        !v.paused,
        amount > 0,
        v.total_assets + amount <= u64::MAX,
        balance + amount <= u64::MAX,
    ensures
        deposit_outcome(v, balance, amount) == Ok::<u64, VaultError>(amount),
{
}

/// Proportionality of deposits: whenever a deposit against a non-empty share
/// supply succeeds, it mints `floor(amount * total_shares / total_assets)`.
pub proof fn lemma_deposit_proportionality(v: Vault, balance: u64, amount: u64)
    requires
        v.total_shares > 0,
        deposit_outcome(v, balance, amount) is Ok,
    ensures
        deposit_outcome(v, balance, amount) == Ok::<u64, VaultError>(
            (((amount as int) * (v.total_shares as int)) / (v.total_assets as int)) as u64,
        ),
{
}

/// Proportionality of withdrawals: whenever a withdrawal succeeds, it
/// returns `floor(shares * total_assets / total_shares)` asset units.
pub proof fn lemma_withdraw_proportionality(v: Vault, balance: u64, shares: u64)
    requires
        withdraw_outcome(v, balance, shares) is Ok,
    ensures
        withdraw_outcome(v, balance, shares) == Ok::<u64, VaultError>(
            (((shares as int) * (v.total_assets as int)) / (v.total_shares as int)) as u64,
        ),
{
}

/// Dust monotonicity, deposit side: minting `floor(amount * S / A)` shares
/// against `amount` fresh assets never lowers the exchange rate `A / S`,
/// stated cross-multiplied so no fraction is needed.
pub proof fn lemma_deposit_rate_nondecreasing(total_assets: u64, total_shares: u64, amount: u64)
    requires
        total_assets > 0,
        total_shares > 0,
    ensures
        (total_assets + amount) * total_shares >= total_assets * (total_shares
            + shares_for_deposit(amount, total_assets, total_shares)),
{
    let ta = total_assets as int;
    let ts = total_shares as int;
    let a = amount as int;
    let m = (a * ts) / ta;
    lemma_fundamental_div_mod(a * ts, ta);
    lemma_mod_bound(a * ts, ta);
    assert(ta * m <= a * ts);
    assert((ta + a) * ts >= ta * (ts + m)) by (nonlinear_arith)
        requires
            ta * m <= a * ts,
    ;
}

/// Dust monotonicity, withdraw side: redeeming `floor(shares * A / S)`
/// assets for `shares` shares never lowers the exchange rate for the
/// remaining holders, and never redeems more than the pool holds.
pub proof fn lemma_withdraw_rate_nondecreasing(total_assets: u64, total_shares: u64, shares: u64)
    requires
        total_shares > 0,
        shares <= total_shares,
    ensures
        assets_for_withdraw(shares, total_assets, total_shares) <= total_assets,
        (total_assets - assets_for_withdraw(shares, total_assets, total_shares)) * total_shares
            >= total_assets * (total_shares - shares),
{
    let ta = total_assets as int;
    let ts = total_shares as int;
    let s = shares as int;
    let r = (s * ta) / ts;
    lemma_fundamental_div_mod(s * ta, ts);
    lemma_mod_bound(s * ta, ts);
    assert(ts * r <= s * ta);
    lemma_mul_inequality(s, ts, ta);
    lemma_div_is_ordered(s * ta, ts * ta, ts);
    lemma_div_multiples_vanish(ta, ts);
    assert((ts * ta) / ts == ta);
    assert(r <= ta);
    assert((ta - r) * ts >= ta * (ts - s)) by (nonlinear_arith)
        requires
            ts * r <= s * ta,
    ;
}

/// Rate comparisons chain: if the exchange rate `a/s` did not drop from the
/// first ledger state to the second, nor from the second to the third, it
/// did not drop from the first to the third — so the per-operation rate
/// lemmas extend to arbitrary deposit/withdraw sequences.
pub proof fn lemma_rate_nondecrease_transitive(
    a1: int,
    s1: int,
    a2: int,
    s2: int,
    a3: int,
    s3: int,
)
    requires
        s1 > 0,
        s2 > 0,
        s3 > 0,
        a1 >= 0,
        a2 >= 0,
        a3 >= 0,
        a2 * s1 >= a1 * s2,
        a3 * s2 >= a2 * s3,
    ensures
        a3 * s1 >= a1 * s3,
{
    assert(a3 * s1 >= a1 * s3) by (nonlinear_arith)
        requires
            s1 > 0,
            s2 > 0,
            s3 > 0,
            a2 * s1 >= a1 * s2,
            a3 * s2 >= a2 * s3,
    ;
}

/// The defensive `InsufficientAssets` check is unreachable whenever the
/// caller's balance is bounded by the share supply — which share
/// conservation guarantees for every position of a well-formed pool.
pub proof fn lemma_insufficient_assets_unreachable(v: Vault, balance: u64, shares: u64)
    requires
        balance <= v.total_shares,
    ensures
        withdraw_outcome(v, balance, shares) != Err::<u64, VaultError>(
            VaultError::InsufficientAssets,
        ),
{
    if shares > 0 && balance >= shares && shares * v.total_assets <= u64::MAX && v.total_shares
        > 0 {
        lemma_withdraw_rate_nondecreasing(v.total_assets, v.total_shares, shares);
    }
}

/// Pause gating: a paused vault rejects every deposit with `VaultPaused`,
/// while withdrawals behave exactly as they would unpaused, the
/// administrator can still pause (rejected as `AlreadyPaused`) and can
/// unpause.
pub proof fn lemma_pause_gates_deposits_only(v: Vault, balance: u64, amount: u64, shares: u64)
    requires
        v.paused,
        amount > 0,
    ensures
        deposit_outcome(v, balance, amount) == Err::<u64, VaultError>(VaultError::VaultPaused),
        withdraw_outcome(v, balance, shares) == withdraw_outcome(
            Vault { paused: false, ..v },
            balance,
            shares,
        ),
        pause_outcome(v, v.authority) == Err::<(), VaultError>(VaultError::AlreadyPaused),
        unpause_outcome(v, v.authority) == Ok::<(), VaultError>(()),
{
}

/// Authorization: any caller other than the stored administrator is turned
/// away from `pause` and `unpause` with `Unauthorized` (the engine's
/// contracts add that the vault is then left unchanged).
pub proof fn lemma_admin_only(v: Vault, caller: u64)
    requires
        caller != v.authority,
    ensures
        pause_outcome(v, caller) == Err::<(), VaultError>(VaultError::Unauthorized),
        unpause_outcome(v, caller) == Err::<(), VaultError>(VaultError::Unauthorized),
{
}

/// Overflow safety: a deposit whose share computation would overflow the
/// 64-bit range fails with `MathOverflow` (the engine's contracts add that
/// all ledger state is then left unchanged).
pub proof fn lemma_overflow_rejected(v: Vault, balance: u64, amount: u64)
    requires
        !v.paused,
        v.total_shares != 0,
        amount * v.total_shares > u64::MAX,
    ensures
        deposit_outcome(v, balance, amount) == Err::<u64, VaultError>(VaultError::MathOverflow),
{
    assert(amount > 0) by (nonlinear_arith)
        requires
            amount * v.total_shares > u64::MAX,
    ;
}

} // verus!
