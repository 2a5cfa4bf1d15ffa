//! The token-ledger collaborator, modelled over plain values: burning from
//! and transferring between token accounts. Each operation is total and
//! classifies exactly when it succeeds and which error it returns otherwise;
//! on failure it leaves every account as it was.

use crate::state::{account_unchanged, credited, debited, TokenAccount};
use crate::ErrorCode;
use vstd::prelude::*;

verus! {

/// When a burn goes through, and the error when it does not: only the
/// account's owner may burn, and no more than the account holds.
pub open spec fn burn_check(account: TokenAccount, authority: Seq<u8>, amount: u64) -> Result<
    (),
    ErrorCode,
> {
    if account.owner@ != authority {
        Err(ErrorCode::Unauthorized)
    } else if amount > account.amount {
        Err(ErrorCode::InsufficientFunds)
    } else {
        Ok(())
    }
}

/// Destroy `amount` tokens held by `account`, authorized by `authority`.
pub fn burn(account: &mut TokenAccount, authority: &Vec<u8>, amount: u64) -> (r: Result<
    (),
    ErrorCode,
>)
    ensures
        r == burn_check(*old(account), authority@, amount),
        r is Ok ==> debited(*old(account), *final(account), amount),
        r is Err ==> account_unchanged(*old(account), *final(account)),
{
    if !crate::state::bytes_eq(&account.owner, authority) {
        return Err(ErrorCode::Unauthorized);
    }
    if amount > account.amount {
        return Err(ErrorCode::InsufficientFunds);
    }
    account.amount = account.amount - amount;
    Ok(())
}

/// When a transfer goes through, and the error when it does not: only the
/// source's owner may debit it, the two accounts must be distinct, the
/// source must hold enough, and the destination's balance must not overflow.
pub open spec fn transfer_check(
    from: TokenAccount,
    to: TokenAccount,
    authority: Seq<u8>,
    amount: u64,
) -> Result<(), ErrorCode> {
    if from.owner@ != authority || from.id@ == to.id@ {
        Err(ErrorCode::Unauthorized)
    } else if amount > from.amount {
        Err(ErrorCode::InsufficientFunds)
    } else if to.amount + amount > u64::MAX {
        Err(ErrorCode::Overflow)
    } else {
        Ok(())
    }
}

/// Move `amount` tokens from `from` to `to`, authorized by `authority`.
pub fn transfer(
    from: &mut TokenAccount,
    to: &mut TokenAccount,
    authority: &Vec<u8>,
    amount: u64,
) -> (r: Result<(), ErrorCode>)
    ensures
        r == transfer_check(*old(from), *old(to), authority@, amount),
        r is Ok ==> debited(*old(from), *final(from), amount) && credited(
            *old(to),
            *final(to),
            amount,
        ),
        r is Err ==> account_unchanged(*old(from), *final(from)) && account_unchanged(
            *old(to),
            *final(to),
        ),
{
    if !crate::state::bytes_eq(&from.owner, authority) {
        return Err(ErrorCode::Unauthorized);
    }
    if crate::state::bytes_eq(&from.id, &to.id) {
        return Err(ErrorCode::Unauthorized);
    }
    if amount > from.amount {
        return Err(ErrorCode::InsufficientFunds);
    }
    if amount > u64::MAX - to.amount {
        return Err(ErrorCode::Overflow);
    }
    from.amount = from.amount - amount;
    to.amount = to.amount + amount;
    Ok(())
}

} // verus!
