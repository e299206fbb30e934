use matching_engine::keys::Pubkey;
use matching_engine::ledger::{reassign_authority, transfer, LedgerError, TokenAccount};

fn key(b: u8) -> Pubkey {
    Pubkey { bytes: [b; 32] }
}

fn escrow(balance: u64) -> TokenAccount {
    TokenAccount {
        key: key(5),
        balance,
        authority: key(1),
    }
}

fn recipient(balance: u64) -> TokenAccount {
    TokenAccount {
        key: key(6),
        balance,
        authority: key(6),
    }
}

#[test]
fn transfer_moves_the_amount() {
    let mut from = escrow(1000);
    let mut to = recipient(100);
    let r = transfer(&mut from, &mut to, 15, &key(1));
    assert_eq!(r, Ok(()));
    assert_eq!(from.balance, 985);
    assert_eq!(to.balance, 115);
    assert_eq!(from.authority, key(1));
    assert_eq!(to.key, key(6));
}

#[test]
fn transfer_rejects_a_wrong_authority() {
    let mut from = escrow(1000);
    let mut to = recipient(100);
    let r = transfer(&mut from, &mut to, 15, &key(9));
    assert_eq!(r, Err(LedgerError::AuthorityMismatch));
    assert_eq!(from.balance, 1000);
    assert_eq!(to.balance, 100);
}

#[test]
fn transfer_rejects_more_than_the_balance() {
    let mut from = escrow(10);
    let mut to = recipient(100);
    let r = transfer(&mut from, &mut to, 15, &key(1));
    assert_eq!(r, Err(LedgerError::InsufficientBalance));
    assert_eq!(from.balance, 10);
    assert_eq!(to.balance, 100);
}

#[test]
fn transfer_rejects_a_destination_overflow() {
    let mut from = escrow(1000);
    let mut to = recipient(u64::MAX - 5);
    let r = transfer(&mut from, &mut to, 15, &key(1));
    assert_eq!(r, Err(LedgerError::BalanceOverflow));
    assert_eq!(from.balance, 1000);
    assert_eq!(to.balance, u64::MAX - 5);
}

#[test]
fn transfer_of_the_whole_balance_empties_the_source() {
    let mut from = escrow(1000);
    let mut to = recipient(0);
    let r = transfer(&mut from, &mut to, 1000, &key(1));
    assert_eq!(r, Ok(()));
    assert_eq!(from.balance, 0);
    assert_eq!(to.balance, 1000);
}

#[test]
fn reassign_authority_hands_over_control() {
    let mut account = escrow(1000);
    let r = reassign_authority(&mut account, key(2), &key(1));
    assert_eq!(r, Ok(()));
    assert_eq!(account.authority, key(2));
    assert_eq!(account.balance, 1000);
    assert_eq!(account.key, key(5));
}

#[test]
fn reassign_authority_rejects_a_wrong_authority() {
    let mut account = escrow(1000);
    let r = reassign_authority(&mut account, key(2), &key(9));
    assert_eq!(r, Err(LedgerError::AuthorityMismatch));
    assert_eq!(account.authority, key(1));
}

#[test]
fn key_eq_compares_all_bytes() {
    let a = key(1);
    let b = key(1);
    let c = key(2);
    assert!(a.key_eq(&b));
    assert!(!a.key_eq(&c));
    let mut d = key(1);
    d.bytes[31] = 0;
    assert!(!a.key_eq(&d));
    let mut e = key(1);
    e.bytes[0] = 0;
    assert!(!a.key_eq(&e));
}
