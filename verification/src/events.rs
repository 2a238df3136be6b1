//! Audit events.  The engine computes the fields; delivering an event is the
//! hosting process's fire-and-forget concern and never affects whether an
//! operation succeeds.

use vstd::prelude::*;

verus! {

/// Audit record of a successful deposit.
#[derive(Clone, Copy, Debug, PartialEq, Eq, Structural)]
pub struct DepositEvent {
    /// Depositor identity.
    pub user: u64,
    /// Asset units moved into the pool.
    pub amount: u64,
    /// Shares minted for the depositor.
    pub shares: u64,
    /// Time the hosting process stamped on the operation.
    pub timestamp: i64,
}

impl DepositEvent {
    /// Assemble the audit record for a deposit.
    pub fn new(user: u64, amount: u64, shares: u64, timestamp: i64) -> (e: DepositEvent)
        ensures
            e == (DepositEvent { user, amount, shares, timestamp }),
    {
        DepositEvent { user, amount, shares, timestamp }
    }
}

/// Audit record of a successful withdrawal.
#[derive(Clone, Copy, Debug, PartialEq, Eq, Structural)]
pub struct WithdrawEvent {
    /// Depositor identity.
    pub user: u64,
    /// Asset units returned from the pool.
    pub assets: u64,
    /// Shares burned from the depositor's position.
    pub shares: u64,
    /// Time the hosting process stamped on the operation.
    pub timestamp: i64,
}

impl WithdrawEvent {
    /// Assemble the audit record for a withdrawal.
    pub fn new(user: u64, assets: u64, shares: u64, timestamp: i64) -> (e: WithdrawEvent)
        ensures
            e == (WithdrawEvent { user, assets, shares, timestamp }),
    {
        WithdrawEvent { user, assets, shares, timestamp }
    }
}

} // verus!
