//! The vault's error taxonomy: every failure is a precondition or invariant
//! violation, reported as a typed value; no operation wraps, clamps or
//! silently truncates.

use vstd::prelude::*;

verus! {

/// Why a vault operation was rejected.  Every rejection leaves the ledger
/// exactly as it was: operations either commit all of their state changes or
/// none of them.
#[derive(Clone, Copy, Debug, PartialEq, Eq, Structural)]
pub enum VaultError {
    /// A zero amount or share count was supplied to deposit or withdraw.
    ZeroAmount,
    /// Deposits are gated off while the vault is paused.
    VaultPaused,
    /// `unpause` was called while the vault was already active.
    NotPaused,
    /// `pause` was called while the vault was already paused.
    AlreadyPaused,
    /// A withdrawal asked for more shares than the caller's position holds.
    InsufficientShares,
    /// A computed withdrawal exceeds the pooled assets (defensive check;
    /// unreachable while the ledger invariants hold).
    InsufficientAssets,
    /// A checked arithmetic step overflowed, underflowed or divided by zero.
    MathOverflow,
    /// An admin operation was invoked by an identity other than the stored
    /// administrator.
    Unauthorized,
}

} // verus!
