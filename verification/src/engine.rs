//! The deposit/withdraw engine and the admin pause state machine.
//!
//! Each operation is a single atomic unit of work against one `Vault` and at
//! most one `UserShares` position: it either commits every state change it
//! describes or fails with a `VaultError` and changes nothing.  The outcome
//! of every operation is pinned exactly by a spec-level outcome function, so
//! callers can reason about failures as precisely as about successes.
//!
//! The external asset transfer is not performed here.  For withdrawals the
//! hosting process must invoke the transfer only after the ledger mutation —
//! which this module guarantees by doing all the mutation before returning
//! the amount to transfer; for deposits the transfer must be unwound if the
//! ledger update fails.

use vstd::prelude::*;

use crate::errors::VaultError;
use crate::math;
use crate::state::{UserShares, Vault};

verus! {

/// Shares minted for depositing `amount` assets into a pool currently holding
/// `total_assets` assets against `total_shares` outstanding shares.
///
/// An empty share supply bootstraps the exchange rate at one share per asset
/// unit; otherwise the deposit mints `floor(amount * total_shares /
/// total_assets)`, flooring in the pool's favor.
///
/// Policy for the dust edge where shares are outstanding but the pool holds
/// no assets: `total_shares == 0` is the sole bootstrap trigger, so such a
/// deposit divides by zero and is rejected as `MathOverflow` rather than
/// minting at an undefined rate (see `deposit_math_ok`).
pub open spec fn shares_for_deposit(amount: u64, total_assets: u64, total_shares: u64) -> int {
    if total_shares == 0 {
        amount as int
    } else {
        (amount as int * total_shares as int) / (total_assets as int)
    }
}

/// Assets redeemed for burning `shares` shares: `floor(shares * total_assets
/// / total_shares)`, flooring in the pool's favor.
pub open spec fn assets_for_withdraw(shares: u64, total_assets: u64, total_shares: u64) -> int {
    (shares as int * total_assets as int) / (total_shares as int)
}

/// Every checked arithmetic step of a deposit succeeds: the share
/// computation neither overflows nor divides by zero, and the three ledger
/// additions fit in 64 bits.
pub open spec fn deposit_math_ok(v: Vault, balance: u64, amount: u64) -> bool {
    let minted = shares_for_deposit(amount, v.total_assets, v.total_shares);
    &&& (v.total_shares != 0 ==> amount * v.total_shares <= u64::MAX)
    &&& (v.total_shares != 0 ==> v.total_assets > 0)
    &&& v.total_assets + amount <= u64::MAX
    &&& v.total_shares + minted <= u64::MAX
    &&& balance + minted <= u64::MAX
}

/// The exact result of `deposit(amount)` against a vault in state `v` by a
/// caller whose position holds `balance` shares.
pub open spec fn deposit_outcome(v: Vault, balance: u64, amount: u64) -> Result<u64, VaultError> {
    if amount == 0 {
        Err(VaultError::ZeroAmount)
    } else if v.paused {
        Err(VaultError::VaultPaused)
    } else if !deposit_math_ok(v, balance, amount) {
        Err(VaultError::MathOverflow)
    } else {
        Ok(shares_for_deposit(amount, v.total_assets, v.total_shares) as u64)
    }
}

/// The exact result of `withdraw(shares)` against a vault in state `v` by a
/// caller whose position holds `balance` shares.  The error cases appear in
/// the order the engine checks them.
pub open spec fn withdraw_outcome(v: Vault, balance: u64, shares: u64) -> Result<u64, VaultError> {
    let assets = assets_for_withdraw(shares, v.total_assets, v.total_shares);
    if shares == 0 {
        Err(VaultError::ZeroAmount)
    } else if balance < shares {
        Err(VaultError::InsufficientShares)
    } else if shares * v.total_assets > u64::MAX {
        Err(VaultError::MathOverflow)
    } else if v.total_shares == 0 {
        Err(VaultError::MathOverflow)
    } else if assets > v.total_assets {
        Err(VaultError::InsufficientAssets)
    } else if shares > v.total_shares {
        Err(VaultError::MathOverflow)
    } else {
        Ok(assets as u64)
    }
}

/// The exact result of `pause()` requested by `caller`.
pub open spec fn pause_outcome(v: Vault, caller: u64) -> Result<(), VaultError> {
    if caller != v.authority {
        Err(VaultError::Unauthorized)
    } else if v.paused {
        Err(VaultError::AlreadyPaused)
    } else {
        Ok(())
    }
}

/// The exact result of `unpause()` requested by `caller`.
pub open spec fn unpause_outcome(v: Vault, caller: u64) -> Result<(), VaultError> {
    if caller != v.authority {
        Err(VaultError::Unauthorized)
    } else if !v.paused {
        Err(VaultError::NotPaused)
    } else {
        Ok(())
    }
}

/// Create the ledger record for a new vault: empty pool, active (unpaused),
/// administered by `authority`.
pub fn initialize(authority: u64, token_mint: u64, vault_token_account: u64, bump: u8) -> (v: Vault)
    ensures
        v == (Vault {
            authority,
            token_mint,
            vault_token_account,
            total_assets: 0,
            total_shares: 0,
            paused: false,
            bump,
        }),
{
    Vault {
        authority,
        token_mint,
        vault_token_account,
        total_assets: 0,
        total_shares: 0,
        paused: false,
        bump,
    }
}

/// Deposit `amount` asset units: mint shares at the current exchange rate and
/// credit them to the caller's position.  Returns the minted share count.
///
/// On any error the vault and the position are left untouched; on success
/// every ledger change described below commits together.
pub fn deposit(vault: &mut Vault, user_shares: &mut UserShares, amount: u64) -> (r: Result<
    u64,
    VaultError,
>)
    ensures
        r == deposit_outcome(*old(vault), old(user_shares).shares, amount),
        old(vault).same_config(*final(vault)),
        final(vault).paused == old(vault).paused,
        r is Err ==> *final(vault) == *old(vault) && *final(user_shares) == *old(user_shares),
        r is Ok ==> final(vault).total_assets == old(vault).total_assets + amount,
        r is Ok ==> final(vault).total_shares == old(vault).total_shares + shares_for_deposit(
            amount,
            old(vault).total_assets,
            old(vault).total_shares,
        ),
        r is Ok ==> final(user_shares).shares == old(user_shares).shares + shares_for_deposit(
            amount,
            old(vault).total_assets,
            old(vault).total_shares,
        ),
{
    if amount == 0 {
        return Err(VaultError::ZeroAmount);
    }
    if vault.paused {
        return Err(VaultError::VaultPaused);
    }

    let shares: u64;
    if vault.total_shares == 0 {
        shares = amount;
    } else {
        let product = match math::checked_mul(amount, vault.total_shares) {
            Ok(p) => p,
            Err(e) => { return Err(e); },
        };
        shares = match math::checked_div(product, vault.total_assets) {
            Ok(s) => s,
            Err(e) => { return Err(e); },
        };
    }

    let new_total_assets = match math::checked_add(vault.total_assets, amount) {
        Ok(v) => v,
        Err(e) => { return Err(e); },
    };
    let new_total_shares = match math::checked_add(vault.total_shares, shares) {
        Ok(v) => v,
        Err(e) => { return Err(e); },
    };
    let new_balance = match math::checked_add(user_shares.shares, shares) {
        Ok(v) => v,
        Err(e) => { return Err(e); },
    };

    vault.total_assets = new_total_assets;
    vault.total_shares = new_total_shares;
    user_shares.shares = new_balance;
    Ok(shares)
}

/// Burn `shares` shares from the caller's position and return the asset
/// amount they redeem at the current exchange rate.
///
/// All ledger mutation happens before this function returns, and the hosting
/// process performs the outgoing transfer only afterwards: state reflects the
/// withdrawal before any external call can observe or re-enter it.  On any
/// error the vault and the position are left untouched.
pub fn withdraw(vault: &mut Vault, user_shares: &mut UserShares, shares: u64) -> (r: Result<
    u64,
    VaultError,
>)
    ensures
        r == withdraw_outcome(*old(vault), old(user_shares).shares, shares),
        old(vault).same_config(*final(vault)),
        final(vault).paused == old(vault).paused,
        r is Err ==> *final(vault) == *old(vault) && *final(user_shares) == *old(user_shares),
        r is Ok ==> final(vault).total_assets == old(vault).total_assets - assets_for_withdraw(
            shares,
            old(vault).total_assets,
            old(vault).total_shares,
        ),
        r is Ok ==> final(vault).total_shares == old(vault).total_shares - shares,
        r is Ok ==> final(user_shares).shares == old(user_shares).shares - shares,
{
    if shares == 0 {
        return Err(VaultError::ZeroAmount);
    }
    if user_shares.shares < shares {
        return Err(VaultError::InsufficientShares);
    }

    let product = match math::checked_mul(shares, vault.total_assets) {
        Ok(p) => p,
        Err(e) => { return Err(e); },
    };
    let assets = match math::checked_div(product, vault.total_shares) {
        Ok(a) => a,
        Err(e) => { return Err(e); },
    };

    if assets > vault.total_assets {
        return Err(VaultError::InsufficientAssets);
    }

    let new_total_assets = match math::checked_sub(vault.total_assets, assets) {
        Ok(v) => v,
        Err(e) => { return Err(e); },
    };
    let new_total_shares = match math::checked_sub(vault.total_shares, shares) {
        Ok(v) => v,
        Err(e) => { return Err(e); },
    };
    let new_balance = match math::checked_sub(user_shares.shares, shares) {
        Ok(v) => v,
        Err(e) => { return Err(e); },
    };

    vault.total_assets = new_total_assets;
    vault.total_shares = new_total_shares;
    user_shares.shares = new_balance;
    Ok(assets)
}

/// Gate deposits off: Active -> Paused, administrator only.
pub fn pause(vault: &mut Vault, caller: u64) -> (r: Result<(), VaultError>)
    ensures
        r == pause_outcome(*old(vault), caller),
        old(vault).same_config(*final(vault)),
        final(vault).total_assets == old(vault).total_assets,
        final(vault).total_shares == old(vault).total_shares,
        r is Err ==> *final(vault) == *old(vault),
        r is Ok ==> final(vault).paused,
{
    if caller != vault.authority {
        return Err(VaultError::Unauthorized);
    }
    if vault.paused {
        return Err(VaultError::AlreadyPaused);
    }
    vault.paused = true;
    Ok(())
}

/// Reopen deposits: Paused -> Active, administrator only.
pub fn unpause(vault: &mut Vault, caller: u64) -> (r: Result<(), VaultError>)
    ensures
        r == unpause_outcome(*old(vault), caller),
        old(vault).same_config(*final(vault)),
        final(vault).total_assets == old(vault).total_assets,
        final(vault).total_shares == old(vault).total_shares,
        r is Err ==> *final(vault) == *old(vault),
        r is Ok ==> !final(vault).paused,
{
    if caller != vault.authority {
        return Err(VaultError::Unauthorized);
    }
    if !vault.paused {
        return Err(VaultError::NotPaused);
    }
    vault.paused = false;
    Ok(())
}

} // verus!
