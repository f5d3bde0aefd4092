use lamport_vault::address::{Address, Wallet};
use lamport_vault::vault::{
    at_vault_address, deposit, find_vault_address, toggle_lock, withdraw, Deposit, ToggleLock, Vault, VaultAccount,
    VaultError, Withdraw,
};

fn addr(b: u8) -> Address {
    Address::new([b; 32])
}

fn vault_account(authority: u8, lamports: u64, locked: bool) -> VaultAccount {
    VaultAccount {
        key: addr(200),
        lamports,
        vault: Vault { vault_authority: addr(authority), locked },
    }
}

#[test]
fn deposit_into_empty_unlocked_vault() {
    let mut ctx = Deposit {
        user: Wallet { key: addr(7), lamports: 1_000 },
        vault: vault_account(1, 0, false),
    };
    let ev = deposit(&mut ctx, 100).unwrap();
    assert_eq!(ctx.vault.lamports, 100);
    assert_eq!(ctx.user.lamports, 900);
    assert_eq!(ev.amount, 100);
    assert_eq!(ev.user.bytes, [7; 32]);
    assert_eq!(ev.vault.bytes, [200; 32]);
}

#[test]
fn deposit_into_locked_vault_is_refused() {
    let mut ctx = Deposit {
        user: Wallet { key: addr(7), lamports: 1_000 },
        vault: vault_account(1, 30, true),
    };
    assert_eq!(deposit(&mut ctx, 50).unwrap_err(), VaultError::VaultLocked);
    assert_eq!(ctx.vault.lamports, 30);
    assert_eq!(ctx.user.lamports, 1_000);
}

#[test]
fn deposit_locked_wins_over_other_errors() {
    let mut ctx = Deposit {
        user: Wallet { key: addr(7), lamports: 10 },
        vault: vault_account(1, 0, true),
    };
    assert_eq!(deposit(&mut ctx, 50).unwrap_err(), VaultError::VaultLocked);
    assert_eq!(deposit(&mut ctx, 0).unwrap_err(), VaultError::VaultLocked);
}

#[test]
fn deposit_zero_is_invalid() {
    let mut ctx = Deposit {
        user: Wallet { key: addr(7), lamports: 10 },
        vault: vault_account(1, 0, false),
    };
    assert_eq!(deposit(&mut ctx, 0).unwrap_err(), VaultError::InvalidAmount);
    assert_eq!(ctx.vault.lamports, 0);
}

#[test]
fn deposit_beyond_depositor_balance_is_refused() {
    let mut ctx = Deposit {
        user: Wallet { key: addr(7), lamports: 99 },
        vault: vault_account(1, 0, false),
    };
    assert_eq!(deposit(&mut ctx, 100).unwrap_err(), VaultError::InsufficientBalance);
    assert_eq!(ctx.user.lamports, 99);
    assert_eq!(ctx.vault.lamports, 0);
}

#[test]
fn withdraw_more_than_vault_holds() {
    let mut ctx = Withdraw {
        vault_authority: Wallet { key: addr(1), lamports: 5 },
        vault: vault_account(1, 100, false),
    };
    assert_eq!(withdraw(&mut ctx, 150).unwrap_err(), VaultError::InsufficientBalance);
    assert_eq!(ctx.vault.lamports, 100);
    assert_eq!(ctx.vault_authority.lamports, 5);
}

#[test]
fn withdraw_by_stranger_is_unauthorized() {
    let mut ctx = Withdraw {
        vault_authority: Wallet { key: addr(9), lamports: 5 },
        vault: vault_account(1, 100, false),
    };
    assert_eq!(withdraw(&mut ctx, 100).unwrap_err(), VaultError::Unauthorized);
    assert_eq!(ctx.vault.lamports, 100);
    assert_eq!(ctx.vault_authority.lamports, 5);
}

#[test]
fn withdraw_from_locked_vault_is_refused() {
    let mut ctx = Withdraw {
        vault_authority: Wallet { key: addr(1), lamports: 5 },
        vault: vault_account(1, 100, true),
    };
    assert_eq!(withdraw(&mut ctx, 10).unwrap_err(), VaultError::VaultLocked);
    assert_eq!(ctx.vault.lamports, 100);
}

#[test]
fn withdraw_zero_is_invalid() {
    let mut ctx = Withdraw {
        vault_authority: Wallet { key: addr(1), lamports: 5 },
        vault: vault_account(1, 100, false),
    };
    assert_eq!(withdraw(&mut ctx, 0).unwrap_err(), VaultError::InvalidAmount);
}

#[test]
fn withdraw_moves_lamports_to_authority() {
    let mut ctx = Withdraw {
        vault_authority: Wallet { key: addr(1), lamports: 5 },
        vault: vault_account(1, 100, false),
    };
    let ev = withdraw(&mut ctx, 100).unwrap();
    assert_eq!(ctx.vault.lamports, 0);
    assert_eq!(ctx.vault_authority.lamports, 105);
    assert_eq!(ev.amount, 100);
    assert_eq!(ev.vault_authority.bytes, [1; 32]);
    assert_eq!(ev.vault.bytes, [200; 32]);
}

#[test]
fn toggle_lock_twice_by_authority() {
    let mut ctx = ToggleLock { vault_authority: addr(1), vault: vault_account(1, 40, false) };
    let first = toggle_lock(&mut ctx).unwrap();
    assert!(ctx.vault.vault.locked);
    assert!(first.locked);
    let second = toggle_lock(&mut ctx).unwrap();
    assert!(!ctx.vault.vault.locked);
    assert!(!second.locked);
    assert_eq!(ctx.vault.lamports, 40);
}

#[test]
fn toggle_lock_by_stranger_is_unauthorized() {
    let mut ctx = ToggleLock { vault_authority: addr(2), vault: vault_account(1, 40, false) };
    assert_eq!(toggle_lock(&mut ctx).unwrap_err(), VaultError::Unauthorized);
    assert!(!ctx.vault.vault.locked);
}

#[test]
fn balance_is_deposits_minus_withdrawals() {
    let mut d = Deposit {
        user: Wallet { key: addr(7), lamports: 1_000 },
        vault: vault_account(1, 0, false),
    };
    deposit(&mut d, 300).unwrap();
    deposit(&mut d, 200).unwrap();
    let mut w = Withdraw { vault_authority: Wallet { key: addr(1), lamports: 0 }, vault: d.vault };
    withdraw(&mut w, 120).unwrap();
    withdraw(&mut w, 80).unwrap();
    assert!(withdraw(&mut w, 301).is_err());
    assert_eq!(w.vault.lamports, 300 + 200 - 120 - 80);
    assert_eq!(d.user.lamports + w.vault.lamports + w.vault_authority.lamports, 1_000);
}

#[test]
fn vault_address_derivation_is_stable() {
    let program = addr(42);
    let first = find_vault_address(&addr(1), &program).unwrap();
    let second = find_vault_address(&addr(1), &program).unwrap();
    assert_eq!(first.0.bytes, second.0.bytes);
    assert_eq!(first.1, second.1);
    let other = find_vault_address(&addr(2), &program).unwrap();
    assert_ne!(first.0.bytes, other.0.bytes);
    assert_ne!(first.0.bytes, [1; 32]);
}

#[test]
fn same_as_compares_every_byte() {
    let mut b = [3u8; 32];
    assert!(addr(3).same_as(&Address::new(b)));
    b[31] = 4;
    assert!(!addr(3).same_as(&Address::new(b)));
    assert_eq!(addr(3).to_vec(), vec![3u8; 32]);
}

#[test]
fn vault_record_layout() {
    let v = Vault { vault_authority: addr(9), locked: true };
    let bytes = v.to_bytes();
    assert_eq!(bytes.len(), 33);
    assert_eq!(bytes[32], 1);
    let back = Vault::from_bytes(&bytes).unwrap();
    assert_eq!(back.vault_authority.bytes, [9; 32]);
    assert!(back.locked);
    let mut open = Vault { vault_authority: addr(9), locked: false }.to_bytes();
    assert_eq!(open[32], 0);
    open.push(77);
    assert!(!Vault::from_bytes(&open).unwrap().locked);
    assert!(Vault::from_bytes(&bytes[..32]).is_none());
    let mut bad = bytes.clone();
    bad[32] = 2;
    assert!(Vault::from_bytes(&bad).is_none());
}

#[test]
fn vault_address_check() {
    let program = addr(42);
    let (key, _) = find_vault_address(&addr(1), &program).unwrap();
    let mut account = vault_account(1, 0, false);
    account.key = key;
    assert!(at_vault_address(&account, &program));
    account.vault.vault_authority = addr(2);
    assert!(!at_vault_address(&account, &program));
}

#[test]
fn vault_address_matches_host_derivation() {
    let program = addr(42);
    let (key, bump) = find_vault_address(&addr(1), &program).unwrap();
    let (want, want_bump) = anchor_lang::prelude::Pubkey::find_program_address(
        &[b"vault", &[1u8; 32]],
        &anchor_lang::prelude::Pubkey::new_from_array([42; 32]),
    );
    assert_eq!(key.bytes, want.to_bytes());
    assert_eq!(bump, want_bump);
}
