//! The keyed vault store: one `Pool` per `(token_mint, vault_token_account)`
//! combination, owned by the hosting process.
//!
//! Vault creation is idempotent-safe — initializing a combination that
//! already has a vault fails and changes nothing — and every operation is
//! addressed to one vault, found by its key, leaving all other vaults
//! untouched.

use vstd::prelude::*;

use crate::engine;
use crate::errors::VaultError;
use crate::pool::Pool;
use crate::state::Vault;

verus! {

/// Every vault pool, keyed by the asset it custodies and its custody
/// account; at most one pool per key.
pub struct VaultStore {
    /// The pools, in creation order.
    pub pools: Vec<Pool>,
}

impl VaultStore {
    /// The key of the pool at position `i`.
    pub open spec fn key_at(self, i: int) -> (u64, u64) {
        (self.pools@[i].vault.token_mint, self.pools@[i].vault.vault_token_account)
    }

    /// Well-formedness: every pool is well-formed and no two pools share a
    /// key.
    pub open spec fn wf(self) -> bool {
        &&& forall|i: int| 0 <= i < self.pools@.len() ==> (#[trigger] self.pools@[i]).wf()
        &&& forall|i: int, j: int|
            0 <= i < j < self.pools@.len() ==> self.key_at(i) != self.key_at(j)
    }

    /// Whether a vault exists for this asset/custody combination.
    pub open spec fn has_vault(self, token_mint: u64, custody: u64) -> bool {
        exists|i: int| 0 <= i < self.pools@.len() && self.key_at(i) == (token_mint, custody)
    }

    /// An empty store: no vaults yet.
    pub fn new() -> (s: VaultStore)
        ensures
            s.wf(),
            s.pools@.len() == 0,
            forall|m: u64, c: u64| !s.has_vault(m, c),
    {
        VaultStore { pools: Vec::new() }
    }

    /// The position of the vault keyed by `(token_mint, custody)`, if any.
    pub fn find_vault(&self, token_mint: u64, custody: u64) -> (r: Option<usize>)
        ensures
            match r {
                Some(i) => i < self.pools@.len() && self.key_at(i as int) == (token_mint, custody),
                None => !self.has_vault(token_mint, custody),
            },
    {
        let n = self.pools.len();
        let mut k: usize = 0;
        while k < n
            invariant
                n == self.pools@.len(),
                k <= n,
                forall|j: int| 0 <= j < k ==> self.key_at(j) != (token_mint, custody),
            decreases n - k,
        {
            if self.pools[k].vault.token_mint == token_mint && self.pools[k].vault.vault_token_account
                == custody {
                return Some(k);
            }
            k += 1;
        }
        None
    }

    /// Create a vault for `(token_mint, custody)`.  Fails — returning `None`
    /// and changing nothing — when the combination already has one;
    /// otherwise appends a fresh, empty, active pool and returns its
    /// position.
    pub fn initialize(&mut self, authority: u64, token_mint: u64, custody: u64, bump: u8) -> (r:
        Option<usize>)
        requires
            old(self).wf(),
        ensures
            final(self).wf(),
            final(self).has_vault(token_mint, custody),
            old(self).has_vault(token_mint, custody) ==> r is None && final(self).pools@ == old(
                self,
            ).pools@,
            !old(self).has_vault(token_mint, custody) ==> r == Some(old(self).pools@.len() as usize)
                && final(self).pools@.len() == old(self).pools@.len() + 1,
            !old(self).has_vault(token_mint, custody) ==> final(self).pools@.last().vault == (Vault {
                authority,
                token_mint,
                vault_token_account: custody,
                total_assets: 0,
                total_shares: 0,
                paused: false,
                bump,
            }),
            !old(self).has_vault(token_mint, custody) ==> forall|o: u64|
                final(self).pools@.last().balance_of(o) == 0,
            forall|i: int| 0 <= i < old(self).pools@.len() ==> final(self).pools@[i] == old(
                self,
            ).pools@[i],
    {
        match self.find_vault(token_mint, custody) {
            Some(_) => None,
            None => {
                let n = self.pools.len();
                self.pools.push(Pool::initialize(authority, token_mint, custody, bump));
                proof {
                    let m = n as int;
                    assert forall|i: int, j: int|
                        0 <= i < j < self.pools@.len() implies self.key_at(i) != self.key_at(
                        j,
                    ) by {
                        if j < m {
                            assert(old(self).key_at(i) != old(self).key_at(j));
                        } else {
                            assert(self.key_at(j) == (token_mint, custody));
                            assert(old(self).key_at(i) == self.key_at(i));
                            assert(!old(self).has_vault(token_mint, custody));
                        }
                    }
                    assert(self.key_at(m) == (token_mint, custody));
                }
                Some(n)
            },
        }
    }

    /// Deposit into the vault at position `i`; the exact outcome and the
    /// pool's new state follow `Pool::deposit`, and every other vault is
    /// untouched.
    pub fn deposit(&mut self, i: usize, caller: u64, amount: u64) -> (r: Result<u64, VaultError>)
        requires
            old(self).wf(),
            i < old(self).pools@.len(),
        ensures
            final(self).wf(),
            final(self).pools@.len() == old(self).pools@.len(),
            forall|j: int|
                0 <= j < old(self).pools@.len() && j != i ==> final(self).pools@[j] == old(
                    self,
                ).pools@[j],
            r == engine::deposit_outcome(
                old(self).pools@[i as int].vault,
                old(self).pools@[i as int].balance_of(caller),
                amount,
            ),
            old(self).pools@[i as int].vault.same_config(final(self).pools@[i as int].vault),
            r is Err ==> final(self).pools@[i as int].vault == old(self).pools@[i as int].vault,
            r is Err ==> forall|o: u64|
                final(self).pools@[i as int].balance_of(o) == old(self).pools@[i as int].balance_of(
                    o,
                ),
            r is Ok ==> final(self).pools@[i as int].vault.total_assets == old(
                self,
            ).pools@[i as int].vault.total_assets + amount,
            r is Ok ==> final(self).pools@[i as int].vault.total_shares == old(
                self,
            ).pools@[i as int].vault.total_shares + engine::shares_for_deposit(
                amount,
                old(self).pools@[i as int].vault.total_assets,
                old(self).pools@[i as int].vault.total_shares,
            ),
            r is Ok ==> final(self).pools@[i as int].balance_of(caller) == old(
                self,
            ).pools@[i as int].balance_of(caller) + engine::shares_for_deposit(
                amount,
                old(self).pools@[i as int].vault.total_assets,
                old(self).pools@[i as int].vault.total_shares,
            ),
            r is Ok ==> forall|o: u64|
                o != caller ==> final(self).pools@[i as int].balance_of(o) == old(
                    self,
                ).pools@[i as int].balance_of(o),
    {
        let mut p = self.pools.remove(i);
        let r = p.deposit(caller, amount);
        self.pools.insert(i, p);
        proof {
            self.lemma_reinsert(*old(self), i as int, p);
        }
        r
    }

    /// Withdraw from the vault at position `i`; the exact outcome and the
    /// pool's new state follow `Pool::withdraw`, and every other vault is
    /// untouched.
    pub fn withdraw(&mut self, i: usize, caller: u64, shares: u64) -> (r: Result<u64, VaultError>)
        requires
            old(self).wf(),
            i < old(self).pools@.len(),
        ensures
            final(self).wf(),
            final(self).pools@.len() == old(self).pools@.len(),
            forall|j: int|
                0 <= j < old(self).pools@.len() && j != i ==> final(self).pools@[j] == old(
                    self,
                ).pools@[j],
            r == engine::withdraw_outcome(
                old(self).pools@[i as int].vault,
                old(self).pools@[i as int].balance_of(caller),
                shares,
            ),
            old(self).pools@[i as int].vault.same_config(final(self).pools@[i as int].vault),
            r is Err ==> final(self).pools@[i as int].vault == old(self).pools@[i as int].vault,
            r is Err ==> forall|o: u64|
                final(self).pools@[i as int].balance_of(o) == old(self).pools@[i as int].balance_of(
                    o,
                ),
            r is Ok ==> final(self).pools@[i as int].vault.total_assets == old(
                self,
            ).pools@[i as int].vault.total_assets - engine::assets_for_withdraw(
                shares,
                old(self).pools@[i as int].vault.total_assets,
                old(self).pools@[i as int].vault.total_shares,
            ),
            r is Ok ==> final(self).pools@[i as int].vault.total_shares == old(
                self,
            ).pools@[i as int].vault.total_shares - shares,
            r is Ok ==> final(self).pools@[i as int].balance_of(caller) == old(
                self,
            ).pools@[i as int].balance_of(caller) - shares,
            r is Ok ==> forall|o: u64|
                o != caller ==> final(self).pools@[i as int].balance_of(o) == old(
                    self,
                ).pools@[i as int].balance_of(o),
    {
        let mut p = self.pools.remove(i);
        let r = p.withdraw(caller, shares);
        self.pools.insert(i, p);
        proof {
            self.lemma_reinsert(*old(self), i as int, p);
        }
        r
    }

    /// Pause the vault at position `i`; administrator only.
    pub fn pause(&mut self, i: usize, caller: u64) -> (r: Result<(), VaultError>)
        requires
            old(self).wf(),
            i < old(self).pools@.len(),
        ensures
            final(self).wf(),
            final(self).pools@.len() == old(self).pools@.len(),
            forall|j: int|
                0 <= j < old(self).pools@.len() && j != i ==> final(self).pools@[j] == old(
                    self,
                ).pools@[j],
            r == engine::pause_outcome(old(self).pools@[i as int].vault, caller),
            old(self).pools@[i as int].vault.same_config(final(self).pools@[i as int].vault),
            final(self).pools@[i as int].vault.total_assets == old(
                self,
            ).pools@[i as int].vault.total_assets,
            final(self).pools@[i as int].vault.total_shares == old(
                self,
            ).pools@[i as int].vault.total_shares,
            forall|o: u64|
                final(self).pools@[i as int].balance_of(o) == old(self).pools@[i as int].balance_of(
                    o,
                ),
            r is Err ==> final(self).pools@[i as int].vault == old(self).pools@[i as int].vault,
            r is Ok ==> final(self).pools@[i as int].vault.paused,
    {
        let mut p = self.pools.remove(i);
        let r = p.pause(caller);
        self.pools.insert(i, p);
        proof {
            self.lemma_reinsert(*old(self), i as int, p);
        }
        r
    }

    /// Unpause the vault at position `i`; administrator only.
    pub fn unpause(&mut self, i: usize, caller: u64) -> (r: Result<(), VaultError>)
        requires
            old(self).wf(),
            i < old(self).pools@.len(),
        ensures
            final(self).wf(),
            final(self).pools@.len() == old(self).pools@.len(),
            forall|j: int|
                0 <= j < old(self).pools@.len() && j != i ==> final(self).pools@[j] == old(
                    self,
                ).pools@[j],
            r == engine::unpause_outcome(old(self).pools@[i as int].vault, caller),
            old(self).pools@[i as int].vault.same_config(final(self).pools@[i as int].vault),
            final(self).pools@[i as int].vault.total_assets == old(
                self,
            ).pools@[i as int].vault.total_assets,
            final(self).pools@[i as int].vault.total_shares == old(
                self,
            ).pools@[i as int].vault.total_shares,
            forall|o: u64|
                final(self).pools@[i as int].balance_of(o) == old(self).pools@[i as int].balance_of(
                    o,
                ),
            r is Err ==> final(self).pools@[i as int].vault == old(self).pools@[i as int].vault,
            r is Ok ==> !final(self).pools@[i as int].vault.paused,
    {
        let mut p = self.pools.remove(i);
        let r = p.unpause(caller);
        self.pools.insert(i, p);
        proof {
            self.lemma_reinsert(*old(self), i as int, p);
        }
        r
    }

    /// Taking the pool at `i` out, operating on it, and putting it back at
    /// `i` is an in-place update; well-formedness follows when the updated
    /// pool is well-formed and kept its key.
    proof fn lemma_reinsert(self, pre: VaultStore, i: int, p: Pool)
        requires
            pre.wf(),
            0 <= i < pre.pools@.len(),
            self.pools@ == pre.pools@.remove(i).insert(i, p),
            p.wf(),
            pre.pools@[i].vault.same_config(p.vault),
        ensures
            self.pools@ =~= pre.pools@.update(i, p),
            self.wf(),
    {
        assert(self.pools@ =~= pre.pools@.update(i, p));
        assert forall|a: int, b: int|
            0 <= a < b < self.pools@.len() implies self.key_at(a) != self.key_at(b) by {
            assert(pre.key_at(a) != pre.key_at(b));
            assert(self.key_at(a) == pre.key_at(a));
            assert(self.key_at(b) == pre.key_at(b));
        }
    }
}

} // verus!
