use nexxore_vault::accounts::{derive_authority, AdminAction, Deposit, Initialize, TokenAccountInfo, Withdraw};
use nexxore_vault::errors::VaultError;
use nexxore_vault::events::{DepositEvent, WithdrawEvent};
use nexxore_vault::pool::Pool;

const ADMIN: u64 = 1;
const MINT: u64 = 2;
const CUSTODY: u64 = 3;
const BUMP: u8 = 254;
const X: u64 = 100;
const Y: u64 = 200;

fn fresh_pool() -> Pool {
    Pool::initialize(ADMIN, MINT, CUSTODY, BUMP)
}

fn assert_conserved(p: &Pool, depositors: &[u64]) {
    let total: u64 = depositors.iter().map(|d| p.balance(*d)).sum();
    assert_eq!(p.vault.total_shares, total);
}

#[test]
fn concrete_two_depositor_scenario() {
    let mut p = fresh_pool();

    assert_eq!(p.deposit(X, 1000), Ok(1000));
    assert_eq!(p.balance(X), 1000);
    assert_eq!(p.vault.total_assets, 1000);
    assert_eq!(p.vault.total_shares, 1000);

    assert_eq!(p.deposit(Y, 500), Ok(500));
    assert_eq!(p.vault.total_assets, 1500);
    assert_eq!(p.vault.total_shares, 1500);

    assert_eq!(p.withdraw(X, 1000), Ok(1000));
    assert_eq!(p.vault.total_assets, 500);
    assert_eq!(p.vault.total_shares, 500);
    assert_eq!(p.balance(X), 0);
    assert_eq!(p.balance(Y), 500);
}

#[test]
fn shares_are_conserved_at_every_step() {
    let mut p = fresh_pool();
    let everyone = [X, Y, 300u64];
    assert_conserved(&p, &everyone);
    p.deposit(X, 777).unwrap();
    assert_conserved(&p, &everyone);
    p.deposit(Y, 1234).unwrap();
    assert_conserved(&p, &everyone);
    p.deposit(300, 5).unwrap();
    assert_conserved(&p, &everyone);
    p.withdraw(Y, 600).unwrap();
    assert_conserved(&p, &everyone);
    p.deposit(X, 99).unwrap();
    assert_conserved(&p, &everyone);
    p.withdraw(X, 1).unwrap();
    assert_conserved(&p, &everyone);
}

#[test]
fn positions_are_created_lazily_and_survive_emptying() {
    let mut p = fresh_pool();
    assert_eq!(p.balance(X), 0);
    assert_eq!(p.withdraw(X, 1), Err(VaultError::InsufficientShares));
    p.deposit(X, 50).unwrap();
    assert_eq!(p.balance(X), 50);
    p.withdraw(X, 50).unwrap();
    assert_eq!(p.balance(X), 0);
    // The emptied record still accepts new deposits.
    assert_eq!(p.deposit(X, 8), Ok(8));
    assert_eq!(p.balance(X), 8);
}

#[test]
fn pool_pause_gates_deposits_and_admin_only() {
    let mut p = fresh_pool();
    p.deposit(X, 100).unwrap();

    assert_eq!(p.pause(Y), Err(VaultError::Unauthorized));
    assert!(!p.vault.paused);
    assert_eq!(p.pause(ADMIN), Ok(()));
    assert_eq!(p.deposit(X, 10), Err(VaultError::VaultPaused));
    assert_eq!(p.balance(X), 100);
    assert_eq!(p.withdraw(X, 40), Ok(40));
    assert_eq!(p.unpause(Y), Err(VaultError::Unauthorized));
    assert!(p.vault.paused);
    assert_eq!(p.unpause(ADMIN), Ok(()));
    assert_eq!(p.deposit(X, 10), Ok(10));
}

#[test]
fn pool_rejects_overflowing_deposit_unchanged() {
    let mut p = fresh_pool();
    p.deposit(X, u64::MAX).unwrap();
    assert_eq!(p.vault.total_shares, u64::MAX);
    // amount * total_shares now overflows 64 bits for any amount > 1.
    assert_eq!(p.deposit(Y, 2), Err(VaultError::MathOverflow));
    assert_eq!(p.vault.total_assets, u64::MAX);
    assert_eq!(p.vault.total_shares, u64::MAX);
    assert_eq!(p.balance(Y), 0);
}

#[test]
fn derived_authority_is_deterministic() {
    let a = derive_authority(MINT, BUMP);
    let b = derive_authority(MINT, BUMP);
    assert_eq!(a, b);
    assert_eq!(a.token_mint, MINT);
    assert_eq!(a.bump, BUMP);
    let other = derive_authority(MINT + 1, BUMP);
    assert_ne!(a, other);
}

#[test]
fn account_checks_enforce_mint_owner_and_custody() {
    let p = fresh_pool();
    let user_acc = TokenAccountInfo { key: 40, mint: MINT, owner: X };
    let custody_acc = TokenAccountInfo { key: CUSTODY, mint: MINT, owner: 9 };

    let good = Deposit { user: X, user_token_account: user_acc, vault_token_account: custody_acc };
    assert!(good.check(&p.vault));

    let wrong_mint = Deposit {
        user: X,
        user_token_account: TokenAccountInfo { key: 40, mint: MINT + 1, owner: X },
        vault_token_account: custody_acc,
    };
    assert!(!wrong_mint.check(&p.vault));

    let wrong_owner = Deposit {
        user: Y,
        user_token_account: user_acc,
        vault_token_account: custody_acc,
    };
    assert!(!wrong_owner.check(&p.vault));

    let wrong_custody = Withdraw {
        user: X,
        user_token_account: user_acc,
        vault_token_account: TokenAccountInfo { key: CUSTODY + 1, mint: MINT, owner: 9 },
    };
    assert!(!wrong_custody.check(&p.vault));

    let ok_withdraw = Withdraw {
        user: X,
        user_token_account: user_acc,
        vault_token_account: custody_acc,
    };
    assert!(ok_withdraw.check(&p.vault));

    assert!(AdminAction { authority: ADMIN }.check(&p.vault));
    assert!(!AdminAction { authority: Y }.check(&p.vault));

    let init = Initialize {
        authority: ADMIN,
        token_mint: MINT,
        vault_key: 77,
        vault_token_account: TokenAccountInfo { key: CUSTODY, mint: MINT, owner: 77 },
    };
    assert!(init.check());
    let init_bad = Initialize {
        authority: ADMIN,
        token_mint: MINT,
        vault_key: 78,
        vault_token_account: TokenAccountInfo { key: CUSTODY, mint: MINT, owner: 77 },
    };
    assert!(!init_bad.check());
}

#[test]
fn events_carry_their_fields() {
    let d = DepositEvent::new(X, 500, 499, 1_700_000_000);
    assert_eq!(d.user, X);
    assert_eq!(d.amount, 500);
    assert_eq!(d.shares, 499);
    assert_eq!(d.timestamp, 1_700_000_000);

    let w = WithdrawEvent::new(Y, 33, 100, -5);
    assert_eq!(w.user, Y);
    assert_eq!(w.assets, 33);
    assert_eq!(w.shares, 100);
    assert_eq!(w.timestamp, -5);
}
