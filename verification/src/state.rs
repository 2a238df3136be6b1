//! Ledger records: the per-asset `Vault` aggregate and the per-depositor
//! `UserShares` position.
//!
//! Account identities (the administrator, the asset mint, the custody
//! account, depositors) are carried as opaque 64-bit identifiers: the engine
//! only ever compares them for equality, and the hosting process maps them to
//! whatever address scheme it uses.

use vstd::prelude::*;

verus! {

/// The aggregate ledger for one asset's pool: one record per asset type.
///
/// `authority`, `token_mint`, `vault_token_account` and `bump` are fixed at
/// initialization and never change; deposits and withdrawals move only
/// `total_assets` and `total_shares`, and the admin operations move only
/// `paused`.
#[derive(Clone, Copy, Debug, PartialEq, Eq, Structural)]
pub struct Vault {
    /// Identity authorized to pause and unpause deposits.
    pub authority: u64,
    /// Identifier of the fungible asset this vault custodies.
    pub token_mint: u64,
    /// The vault-owned account holding the pooled asset.
    pub vault_token_account: u64,
    /// Asset units currently held by the pool.
    pub total_assets: u64,
    /// Shares currently outstanding across all positions.
    pub total_shares: u64,
    /// While `true`, deposits are rejected; withdrawals stay open.
    pub paused: bool,
    /// Nonce used to derive the vault's own signing authority.
    pub bump: u8,
}

impl Vault {
    /// The fields that initialization fixes for the life of the vault.
    pub open spec fn same_config(self, other: Vault) -> bool {
        &&& self.authority == other.authority
        &&& self.token_mint == other.token_mint
        &&& self.vault_token_account == other.vault_token_account
        &&& self.bump == other.bump
    }
}

/// One depositor's position in one vault: its share balance.  The record is
/// created lazily with zero shares on the depositor's first deposit and may
/// return to zero without being destroyed.
#[derive(Clone, Copy, Debug, PartialEq, Eq, Structural)]
pub struct UserShares {
    /// Shares held by this position.
    pub shares: u64,
}

} // verus!
