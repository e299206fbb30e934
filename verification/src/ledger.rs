use crate::keys::Pubkey;
use vstd::prelude::*;

verus! {

/// One token account of the surrounding ledger: its identity, its balance in
/// the smallest asset unit, and the authority that controls it.
#[derive(Clone, Copy, Debug, PartialEq, Eq)]
pub struct TokenAccount {
    pub key: Pubkey,
    pub balance: u64,
    /// Who may authorize transfers out of this account, and hand that control
    /// to someone else.
    pub authority: Pubkey,
}

/// Why a custody operation was rejected. A rejected operation changes
/// nothing.
#[derive(Clone, Copy, Debug, PartialEq, Eq)]
pub enum LedgerError {
    /// The authorization token does not match the account's authority.
    AuthorityMismatch,
    /// The amount exceeds the source account's balance.
    InsufficientBalance,
    /// The destination balance would exceed `u64::MAX`.
    BalanceOverflow,
}

/// Whether `transfer` accepts moving `amount` from `from` to `to` under
/// `authorized_by`.
pub open spec fn transfer_accepted(
    from: TokenAccount,
    to: TokenAccount,
    amount: u64,
    authorized_by: Pubkey,
) -> bool {
    &&& from.authority == authorized_by
    &&& amount <= from.balance
    &&& to.balance + amount <= u64::MAX
}

/// Custody transfer: moves `amount` atomically from `from` to `to`, but only
/// when `authorized_by` matches the source's authority, the source can cover
/// the amount, and the destination balance cannot overflow. A rejected
/// transfer changes neither account.
pub fn transfer(
    from: &mut TokenAccount,
    to: &mut TokenAccount,
    amount: u64,
    authorized_by: &Pubkey,
) -> (r: Result<(), LedgerError>)
    ensures
        r is Ok <==> transfer_accepted(*old(from), *old(to), amount, *authorized_by),
        r is Ok ==> final(from).balance == old(from).balance - amount
            && final(to).balance == old(to).balance + amount
            && final(from).key == old(from).key
            && final(from).authority == old(from).authority
            && final(to).key == old(to).key
            && final(to).authority == old(to).authority,
        r is Err ==> *final(from) == *old(from) && *final(to) == *old(to),
        r == Err::<(), LedgerError>(LedgerError::AuthorityMismatch)
            <==> old(from).authority != *authorized_by,
        r == Err::<(), LedgerError>(LedgerError::InsufficientBalance)
            <==> old(from).authority == *authorized_by && amount > old(from).balance,
        r == Err::<(), LedgerError>(LedgerError::BalanceOverflow)
            <==> old(from).authority == *authorized_by && amount <= old(from).balance
                && old(to).balance + amount > u64::MAX,
{
    if !from.authority.key_eq(authorized_by) {
        return Err(LedgerError::AuthorityMismatch);
    }
    if amount > from.balance {
        return Err(LedgerError::InsufficientBalance);
    }
    if amount > u64::MAX - to.balance {
        return Err(LedgerError::BalanceOverflow);
    }
    from.balance = from.balance - amount;
    to.balance = to.balance + amount;
    Ok(())
}

/// Authority handoff: changes who may authorize future transfers out of
/// `account`; no value moves. Rejected, changing nothing, unless
/// `authorized_by` matches the account's current authority.
pub fn reassign_authority(
    account: &mut TokenAccount,
    new_authority: Pubkey,
    authorized_by: &Pubkey,
) -> (r: Result<(), LedgerError>)
    ensures
        r is Ok <==> old(account).authority == *authorized_by,
        r is Ok ==> final(account).authority == new_authority
            && final(account).key == old(account).key
            && final(account).balance == old(account).balance,
        r is Err ==> *final(account) == *old(account)
            && r == Err::<(), LedgerError>(LedgerError::AuthorityMismatch),
{
    if account.authority.key_eq(authorized_by) {
        account.authority = new_authority;
        Ok(())
    } else {
        Err(LedgerError::AuthorityMismatch)
    }
}

} // verus!
