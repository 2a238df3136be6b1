//! Operation contexts: the account metadata each operation runs against, and
//! the checks the engine owes the transfer collaborator before any asset
//! moves — the accounts' declared asset type must match the vault's, the
//! vault-side account must be the recorded custody account, and the
//! user-side account must belong to the caller.
//!
//! The vault authorizes its own outgoing transfers with a capability derived
//! deterministically from immutable vault parameters (`derive_authority`),
//! never with a stored secret.

use vstd::prelude::*;

use crate::state::Vault;

verus! {

/// The metadata of a token account as its owner declares it: its address,
/// the asset it holds and the identity controlling it.
#[derive(Clone, Copy, Debug, PartialEq, Eq, Structural)]
pub struct TokenAccountInfo {
    /// Address of the account.
    pub key: u64,
    /// Asset type the account holds.
    pub mint: u64,
    /// Identity that controls the account.
    pub owner: u64,
}

/// Capability proof that the vault controls its custody account, computed
/// from the immutable vault parameters alone.
#[derive(Clone, Copy, Debug, PartialEq, Eq, Structural)]
pub struct VaultAuthority {
    /// Asset type the proof is derived for.
    pub token_mint: u64,
    /// The vault's derivation nonce.
    pub bump: u8,
}

/// Derive the vault's signing capability for outgoing transfers.  The
/// derivation is a pure function of the vault's immutable parameters, so
/// the same vault always presents the same authority.
pub fn derive_authority(token_mint: u64, bump: u8) -> (r: VaultAuthority)
    ensures
        r == (VaultAuthority { token_mint, bump }),
{
    VaultAuthority { token_mint, bump }
}

/// Accounts for vault creation.
pub struct Initialize {
    /// The caller, recorded as the vault's administrator.
    pub authority: u64,
    /// Asset type the new vault will custody.
    pub token_mint: u64,
    /// Address assigned to the new vault record.
    pub vault_key: u64,
    /// The custody account the vault will pool assets in.
    pub vault_token_account: TokenAccountInfo,
}

impl Initialize {
    /// The custody account holds the vault's asset type and is controlled by
    /// the vault itself.
    pub open spec fn valid(self) -> bool {
        &&& self.vault_token_account.mint == self.token_mint
        &&& self.vault_token_account.owner == self.vault_key
    }

    /// Runtime evaluation of `valid`.
    pub fn check(&self) -> (r: bool)
        ensures
            r == self.valid(),
    {
        self.vault_token_account.mint == self.token_mint && self.vault_token_account.owner
            == self.vault_key
    }
}

/// Accounts for a deposit.
pub struct Deposit {
    /// The depositing caller.
    pub user: u64,
    /// The caller's own token account, source of the deposit.
    pub user_token_account: TokenAccountInfo,
    /// The custody account the deposit lands in.
    pub vault_token_account: TokenAccountInfo,
}

impl Deposit {
    /// The user account holds the vault's asset type and belongs to the
    /// caller; the vault-side account is the recorded custody account.
    pub open spec fn valid(self, vault: Vault) -> bool {
        &&& self.user_token_account.mint == vault.token_mint
        &&& self.user_token_account.owner == self.user
        &&& self.vault_token_account.key == vault.vault_token_account
    }

    /// Runtime evaluation of `valid` against the vault the deposit targets.
    pub fn check(&self, vault: &Vault) -> (r: bool)
        ensures
            r == self.valid(*vault),
    {
        self.user_token_account.mint == vault.token_mint && self.user_token_account.owner
            == self.user && self.vault_token_account.key == vault.vault_token_account
    }
}

/// Accounts for a withdrawal.
pub struct Withdraw {
    /// The withdrawing caller.
    pub user: u64,
    /// The caller's own token account, destination of the withdrawal.
    pub user_token_account: TokenAccountInfo,
    /// The custody account the withdrawal is paid from.
    pub vault_token_account: TokenAccountInfo,
}

impl Withdraw {
    /// The user account holds the vault's asset type and belongs to the
    /// caller; the vault-side account is the recorded custody account.
    pub open spec fn valid(self, vault: Vault) -> bool {
        &&& self.user_token_account.mint == vault.token_mint
        &&& self.user_token_account.owner == self.user
        &&& self.vault_token_account.key == vault.vault_token_account
    }

    /// Runtime evaluation of `valid` against the vault withdrawn from.
    pub fn check(&self, vault: &Vault) -> (r: bool)
        ensures
            r == self.valid(*vault),
    {
        self.user_token_account.mint == vault.token_mint && self.user_token_account.owner
            == self.user && self.vault_token_account.key == vault.vault_token_account
    }
}

/// Accounts for an admin operation.
pub struct AdminAction {
    /// The identity requesting the pause or unpause.
    pub authority: u64,
}

impl AdminAction {
    /// The caller is the vault's stored administrator.  The engine's
    /// `pause`/`unpause` re-check this against the stored value and answer
    /// `Unauthorized` themselves, so a forged context cannot slip through.
    pub open spec fn valid(self, vault: Vault) -> bool {
        self.authority == vault.authority
    }

    /// Runtime evaluation of `valid` against the stored administrator.
    pub fn check(&self, vault: &Vault) -> (r: bool)
        ensures
            r == self.valid(*vault),
    {
        self.authority == vault.authority
    }
}

} // verus!
