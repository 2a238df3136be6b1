//! The pooled ledger: one `Vault` record together with every depositor
//! position belonging to it, keyed by depositor identity.
//!
//! The well-formedness predicate `Pool::wf` carries the central accounting
//! invariant — the vault's outstanding `total_shares` equals the sum of all
//! position balances — and every operation proves it preserved, so shares
//! are conserved across any sequence of deposits and withdrawals.

use vstd::prelude::*;

use crate::engine;
use crate::errors::VaultError;
use crate::state::{UserShares, Vault};

verus! {

/// Total shares recorded across a sequence of positions.
pub open spec fn sum_shares(s: Seq<UserShares>) -> int
    decreases s.len(),
{
    if s.len() == 0 {
        0
    } else {
        sum_shares(s.drop_last()) + s.last().shares
    }
}

/// Replacing one position changes the total by exactly the difference at
/// that position.
pub proof fn lemma_sum_update(s: Seq<UserShares>, i: int, v: UserShares)
    requires
        0 <= i < s.len(),
    ensures
        sum_shares(s.update(i, v)) == sum_shares(s) - s[i].shares + v.shares,
    decreases s.len(),
{
    let t = s.update(i, v);
    if i == s.len() - 1 {
        assert(t.drop_last() =~= s.drop_last());
    } else {
        assert(t.drop_last() =~= s.drop_last().update(i, v));
        lemma_sum_update(s.drop_last(), i, v);
    }
}

/// Appending a position adds exactly its balance to the total.
pub proof fn lemma_sum_push(s: Seq<UserShares>, v: UserShares)
    ensures
        sum_shares(s.push(v)) == sum_shares(s) + v.shares,
{
    assert(s.push(v).drop_last() =~= s);
}

/// A total over unsigned balances is never negative.
pub proof fn lemma_sum_nonneg(s: Seq<UserShares>)
    ensures
        sum_shares(s) >= 0,
    decreases s.len(),
{
    if s.len() > 0 {
        lemma_sum_nonneg(s.drop_last());
    }
}

/// No single position exceeds the total over all positions.
pub proof fn lemma_sum_element(s: Seq<UserShares>, i: int)
    requires
        0 <= i < s.len(),
    ensures
        s[i].shares <= sum_shares(s),
    decreases s.len(),
{
    if i == s.len() - 1 {
        lemma_sum_nonneg(s.drop_last());
    } else {
        lemma_sum_element(s.drop_last(), i);
    }
}

/// One vault and all of its depositor positions.  `owners[i]` names the
/// depositor whose position is `accounts[i]`; a depositor appears at most
/// once.
pub struct Pool {
    /// The aggregate vault record.
    pub vault: Vault,
    /// Depositor identities, one per position, no duplicates.
    pub owners: Vec<u64>,
    /// Position records, parallel to `owners`.
    pub accounts: Vec<UserShares>,
}

impl Pool {
    /// Well-formedness: the two columns line up, depositors are unique, and
    /// the vault's outstanding shares are exactly the sum of all position
    /// balances (share conservation).
    pub open spec fn wf(self) -> bool {
        &&& self.owners@.len() == self.accounts@.len()
        &&& (forall|i: int, j: int|
            0 <= i < j < self.owners@.len() ==> self.owners@[i] != self.owners@[j])
        &&& self.vault.total_shares == sum_shares(self.accounts@)
    }

    /// Whether `owner` has a position record (possibly holding zero shares).
    pub open spec fn has_position(self, owner: u64) -> bool {
        self.owners@.contains(owner)
    }

    /// `owner`'s share balance; zero for a depositor without a record.
    pub open spec fn balance_of(self, owner: u64) -> u64 {
        if self.has_position(owner) {
            self.accounts@[self.owners@.index_of(owner)].shares
        } else {
            0
        }
    }

    /// Create the pool for a new vault: empty ledger, no positions, active.
    pub fn initialize(authority: u64, token_mint: u64, vault_token_account: u64, bump: u8) -> (p:
        Pool)
        ensures
            p.wf(),
            p.vault == (Vault {
                authority,
                token_mint,
                vault_token_account,
                total_assets: 0,
                total_shares: 0,
                paused: false,
                bump,
            }),
            forall|o: u64| !p.has_position(o),
            forall|o: u64| p.balance_of(o) == 0,
    {
        Pool {
            vault: engine::initialize(authority, token_mint, vault_token_account, bump),
            owners: Vec::new(),
            accounts: Vec::new(),
        }
    }

    /// The row holding `owner`'s position, if one exists.
    fn find_owner(&self, owner: u64) -> (r: Option<usize>)
        ensures
            match r {
                Some(i) => i < self.owners@.len() && self.owners@[i as int] == owner,
                None => !self.owners@.contains(owner),
            },
    {
        let n = self.owners.len();
        let mut k: usize = 0;
        while k < n
            invariant
                n == self.owners@.len(),
                k <= n,
                forall|j: int| 0 <= j < k ==> self.owners@[j] != owner,
            decreases n - k,
        {
            if self.owners[k] == owner {
                return Some(k);
            }
            k += 1;
        }
        None
    }

    /// Deposit `amount` assets for `caller`, lazily creating the position,
    /// and return the minted share count.  On error nothing changes; on
    /// success only the vault totals and `caller`'s balance move, and share
    /// conservation still holds.
    pub fn deposit(&mut self, caller: u64, amount: u64) -> (r: Result<u64, VaultError>)
        requires
            old(self).wf(),
        ensures
            final(self).wf(),
            r == engine::deposit_outcome(old(self).vault, old(self).balance_of(caller), amount),
            old(self).vault.same_config(final(self).vault),
            final(self).vault.paused == old(self).vault.paused,
            r is Err ==> final(self).vault == old(self).vault,
            r is Err ==> forall|o: u64| final(self).balance_of(o) == old(self).balance_of(o),
            r is Err ==> forall|o: u64| final(self).has_position(o) == old(self).has_position(o),
            r is Ok ==> final(self).vault.total_assets == old(self).vault.total_assets + amount,
            r is Ok ==> final(self).vault.total_shares == old(self).vault.total_shares
                + engine::shares_for_deposit(
                amount,
                old(self).vault.total_assets,
                old(self).vault.total_shares,
            ),
            r is Ok ==> final(self).has_position(caller),
            r is Ok ==> final(self).balance_of(caller) == old(self).balance_of(caller)
                + engine::shares_for_deposit(
                amount,
                old(self).vault.total_assets,
                old(self).vault.total_shares,
            ),
            r is Ok ==> forall|o: u64|
                o != caller ==> final(self).balance_of(o) == old(self).balance_of(o),
            r is Ok ==> forall|o: u64|
                o != caller ==> final(self).has_position(o) == old(self).has_position(o),
    {
        let idx = self.find_owner(caller);
        let mut us = match idx {
            Some(i) => self.accounts[i],
            None => UserShares { shares: 0 },
        };
        proof {
            if idx is Some {
                let i = idx->Some_0 as int;
                assert(self.owners@.contains(caller));
                let j = self.owners@.index_of(caller);
                assert(self.owners@[j] == caller);
                assert(j == i);
            }
            assert(us.shares == old(self).balance_of(caller));
        }
        let mut v = self.vault;
        let r = engine::deposit(&mut v, &mut us, amount);
        match r {
            Ok(minted) => {
                self.vault = v;
                let ghost minted_spec = engine::shares_for_deposit(
                    amount,
                    old(self).vault.total_assets,
                    old(self).vault.total_shares,
                );
                match idx {
                    Some(i) => {
                        self.accounts.set(i, us);
                        proof {
                            let ii = i as int;
                            lemma_sum_update(old(self).accounts@, ii, us);
                            assert(self.wf());
                            assert(self.owners@ == old(self).owners@);
                            assert(self.owners@.contains(caller));
                            let j = self.owners@.index_of(caller);
                            assert(self.owners@[j] == caller);
                            assert(j == ii);
                            assert(self.balance_of(caller) == old(self).balance_of(caller)
                                + minted_spec);
                            assert forall|o: u64| o != caller implies self.balance_of(o) == old(
                                self,
                            ).balance_of(o) by {
                                if old(self).owners@.contains(o) {
                                    let k = old(self).owners@.index_of(o);
                                    assert(old(self).owners@[k] == o);
                                    assert(k != ii);
                                    assert(self.accounts@[k] == old(self).accounts@[k]);
                                }
                            }
                        }
                        Ok(minted)
                    },
                    None => {
                        self.owners.push(caller);
                        self.accounts.push(us);
                        proof {
                            let n = old(self).owners@.len() as int;
                            lemma_sum_push(old(self).accounts@, us);
                            assert forall|i: int, j: int|
                                0 <= i < j < self.owners@.len() implies self.owners@[i]
                                != self.owners@[j] by {
                                if j < n {
                                    assert(old(self).owners@[i] != old(self).owners@[j]);
                                } else {
                                    assert(self.owners@[j] == caller);
                                    assert(old(self).owners@[i] == self.owners@[i]);
                                    assert(!old(self).owners@.contains(caller));
                                }
                            }
                            assert(self.wf());
                            assert(self.owners@[n] == caller);
                            assert(self.owners@.contains(caller));
                            let j = self.owners@.index_of(caller);
                            assert(self.owners@[j] == caller);
                            assert(j == n);
                            assert(self.balance_of(caller) == old(self).balance_of(caller)
                                + minted_spec);
                            assert forall|o: u64| o != caller implies self.balance_of(o) == old(
                                self,
                            ).balance_of(o) by {
                                if old(self).owners@.contains(o) {
                                    let k = old(self).owners@.index_of(o);
                                    assert(old(self).owners@[k] == o);
                                    assert(self.owners@[k] == o);
                                    assert(self.owners@.contains(o));
                                    let k2 = self.owners@.index_of(o);
                                    assert(self.owners@[k2] == o);
                                    assert(k2 != n);
                                    assert(k2 == k);
                                } else {
                                    assert forall|k: int|
                                        0 <= k < self.owners@.len() implies self.owners@[k]
                                        != o by {
                                        if k < n {
                                            assert(old(self).owners@[k] != o);
                                        }
                                    }
                                    assert(!self.owners@.contains(o));
                                }
                            }
                            assert forall|o: u64| o != caller implies self.has_position(o) == old(
                                self,
                            ).has_position(o) by {
                                if old(self).owners@.contains(o) {
                                    let k = old(self).owners@.index_of(o);
                                    assert(old(self).owners@[k] == o);
                                    assert(self.owners@[k] == o);
                                } else {
                                    assert forall|k: int|
                                        0 <= k < self.owners@.len() implies self.owners@[k]
                                        != o by {
                                        if k < n {
                                            assert(old(self).owners@[k] != o);
                                        }
                                    }
                                }
                            }
                        }
                        Ok(minted)
                    },
                }
            },
            Err(e) => Err(e),
        }
    }

    /// Burn `shares` from `caller`'s position and return the redeemed asset
    /// amount.  The ledger is fully mutated before this returns — the
    /// hosting process performs the outgoing transfer only afterwards.  On
    /// error nothing changes; on success share conservation still holds.
    pub fn withdraw(&mut self, caller: u64, shares: u64) -> (r: Result<u64, VaultError>)
        requires
            old(self).wf(),
        ensures
            final(self).wf(),
            r == engine::withdraw_outcome(old(self).vault, old(self).balance_of(caller), shares),
            old(self).vault.same_config(final(self).vault),
            final(self).vault.paused == old(self).vault.paused,
            r is Err ==> final(self).vault == old(self).vault,
            r is Err ==> forall|o: u64| final(self).balance_of(o) == old(self).balance_of(o),
            r is Err ==> forall|o: u64| final(self).has_position(o) == old(self).has_position(o),
            r is Ok ==> final(self).vault.total_assets == old(self).vault.total_assets
                - engine::assets_for_withdraw(
                shares,
                old(self).vault.total_assets,
                old(self).vault.total_shares,
            ),
            r is Ok ==> final(self).vault.total_shares == old(self).vault.total_shares - shares,
            r is Ok ==> final(self).balance_of(caller) == old(self).balance_of(caller) - shares,
            r is Ok ==> forall|o: u64|
                o != caller ==> final(self).balance_of(o) == old(self).balance_of(o),
            forall|o: u64| final(self).has_position(o) == old(self).has_position(o),
    {
        let idx = self.find_owner(caller);
        match idx {
            None => {
                if shares == 0 {
                    Err(VaultError::ZeroAmount)
                } else {
                    Err(VaultError::InsufficientShares)
                }
            },
            Some(i) => {
                proof {
                    let ii = i as int;
                    assert(self.owners@.contains(caller));
                    let j = self.owners@.index_of(caller);
                    assert(self.owners@[j] == caller);
                    assert(j == ii);
                }
                let mut us = self.accounts[i];
                assert(us.shares == old(self).balance_of(caller));
                let mut v = self.vault;
                let r = engine::withdraw(&mut v, &mut us, shares);
                match r {
                    Ok(assets) => {
                        self.vault = v;
                        self.accounts.set(i, us);
                        proof {
                            let ii = i as int;
                            lemma_sum_update(old(self).accounts@, ii, us);
                            assert(self.wf());
                            assert(self.owners@.contains(caller));
                            let j = self.owners@.index_of(caller);
                            assert(self.owners@[j] == caller);
                            assert(j == ii);
                            assert forall|o: u64| o != caller implies self.balance_of(o) == old(
                                self,
                            ).balance_of(o) by {
                                if old(self).owners@.contains(o) {
                                    let k = old(self).owners@.index_of(o);
                                    assert(old(self).owners@[k] == o);
                                    assert(k != ii);
                                    assert(self.accounts@[k] == old(self).accounts@[k]);
                                }
                            }
                        }
                        Ok(assets)
                    },
                    Err(e) => Err(e),
                }
            },
        }
    }

    /// `owner`'s current share balance; zero without a position record.
    pub fn balance(&self, owner: u64) -> (r: u64)
        requires
            self.wf(),
        ensures
            r == self.balance_of(owner),
    {
        match self.find_owner(owner) {
            Some(i) => {
                proof {
                    assert(self.owners@.contains(owner));
                    let j = self.owners@.index_of(owner);
                    assert(self.owners@[j] == owner);
                    assert(j == i as int);
                }
                self.accounts[i].shares
            },
            None => 0,
        }
    }

    /// Pause deposits; administrator only.  Positions and totals never move.
    pub fn pause(&mut self, caller: u64) -> (r: Result<(), VaultError>)
        requires
            old(self).wf(),
        ensures
            final(self).wf(),
            r == engine::pause_outcome(old(self).vault, caller),
            old(self).vault.same_config(final(self).vault),
            final(self).vault.total_assets == old(self).vault.total_assets,
            final(self).vault.total_shares == old(self).vault.total_shares,
            forall|o: u64| final(self).balance_of(o) == old(self).balance_of(o),
            forall|o: u64| final(self).has_position(o) == old(self).has_position(o),
            r is Err ==> final(self).vault == old(self).vault,
            r is Ok ==> final(self).vault.paused,
    {
        let mut v = self.vault;
        let r = engine::pause(&mut v, caller);
        self.vault = v;
        r
    }

    /// Reopen deposits; administrator only.  Positions and totals never move.
    pub fn unpause(&mut self, caller: u64) -> (r: Result<(), VaultError>)
        requires
            old(self).wf(),
        ensures
            final(self).wf(),
            r == engine::unpause_outcome(old(self).vault, caller),
            old(self).vault.same_config(final(self).vault),
            final(self).vault.total_assets == old(self).vault.total_assets,
            final(self).vault.total_shares == old(self).vault.total_shares,
            forall|o: u64| final(self).balance_of(o) == old(self).balance_of(o),
            forall|o: u64| final(self).has_position(o) == old(self).has_position(o),
            r is Err ==> final(self).vault == old(self).vault,
            r is Ok ==> !final(self).vault.paused,
    {
        let mut v = self.vault;
        let r = engine::unpause(&mut v, caller);
        self.vault = v;
        r
    }
}

} // verus!
