use nexxore_vault::errors::VaultError;
use nexxore_vault::store::VaultStore;

const ADMIN: u64 = 1;
const MINT_A: u64 = 10;
const MINT_B: u64 = 20;
const CUSTODY_A: u64 = 11;
const CUSTODY_B: u64 = 21;

#[test]
fn initialization_is_idempotent_safe() {
    let mut s = VaultStore::new();
    assert!(s.find_vault(MINT_A, CUSTODY_A).is_none());

    let first = s.initialize(ADMIN, MINT_A, CUSTODY_A, 255);
    assert_eq!(first, Some(0));

    // Same (asset, custody) combination: creation fails, nothing changes.
    let again = s.initialize(ADMIN + 1, MINT_A, CUSTODY_A, 7);
    assert_eq!(again, None);
    assert_eq!(s.pools.len(), 1);
    assert_eq!(s.pools[0].vault.authority, ADMIN);
    assert_eq!(s.pools[0].vault.bump, 255);

    // A different custody account for the same asset is a different vault.
    let other = s.initialize(ADMIN, MINT_A, CUSTODY_B, 254);
    assert_eq!(other, Some(1));
    assert_eq!(s.find_vault(MINT_A, CUSTODY_A), Some(0));
    assert_eq!(s.find_vault(MINT_A, CUSTODY_B), Some(1));
}

#[test]
fn operations_touch_only_the_addressed_vault() {
    let mut s = VaultStore::new();
    let a = s.initialize(ADMIN, MINT_A, CUSTODY_A, 255).unwrap();
    let b = s.initialize(ADMIN, MINT_B, CUSTODY_B, 254).unwrap();

    assert_eq!(s.deposit(a, 100, 1000), Ok(1000));
    assert_eq!(s.deposit(b, 100, 40), Ok(40));
    assert_eq!(s.pools[a].vault.total_assets, 1000);
    assert_eq!(s.pools[b].vault.total_assets, 40);

    assert_eq!(s.pause(b, ADMIN), Ok(()));
    assert!(!s.pools[a].vault.paused);
    assert!(s.pools[b].vault.paused);

    assert_eq!(s.deposit(a, 200, 500), Ok(500));
    assert_eq!(s.deposit(b, 200, 500), Err(VaultError::VaultPaused));

    assert_eq!(s.withdraw(a, 100, 1000), Ok(1000));
    assert_eq!(s.pools[a].vault.total_assets, 500);
    assert_eq!(s.pools[a].vault.total_shares, 500);
    assert_eq!(s.pools[b].vault.total_assets, 40);

    assert_eq!(s.unpause(b, ADMIN), Ok(()));
    assert_eq!(s.unpause(b, ADMIN), Err(VaultError::NotPaused));
}
