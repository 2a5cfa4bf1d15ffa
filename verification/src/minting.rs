//! The minting-authority collaborator, modelled over plain values: it alone
//! decides whether a delegated mint request goes through, by its own
//! allowance policy. A granted request credits the destination and consumes
//! the delegation's allowance; a refused one changes nothing.

use crate::state::{account_unchanged, credited, MinterDelegation, TokenAccount};
use crate::ErrorCode;
use vstd::prelude::*;

verus! {

/// When the minting service grants a request, and the error when it refuses:
/// the request must come from the delegated authority, stay within the
/// remaining allowance, name the delegation's token, and not overflow the
/// destination's balance.
pub open spec fn mint_check(
    delegation: MinterDelegation,
    minter: Seq<u8>,
    destination: TokenAccount,
    mint: Seq<u8>,
    amount: u64,
) -> Result<(), ErrorCode> {
    if delegation.minter@ != minter {
        Err(ErrorCode::Unauthorized)
    } else if amount > delegation.allowance {
        Err(ErrorCode::AllowanceExceeded)
    } else if destination.mint@ != mint {
        Err(ErrorCode::Unauthorized)
    } else if destination.amount + amount > u64::MAX {
        Err(ErrorCode::Overflow)
    } else {
        Ok(())
    }
}

/// Ask the minting service to mint `amount` of `mint` to `destination`,
/// presented by `minter` under `delegation`.
pub fn perform_mint(
    delegation: &mut MinterDelegation,
    destination: &mut TokenAccount,
    minter: &Vec<u8>,
    mint: &Vec<u8>,
    amount: u64,
) -> (r: Result<(), ErrorCode>)
    ensures
        r == mint_check(*old(delegation), minter@, *old(destination), mint@, amount),
        r is Ok ==> credited(*old(destination), *final(destination), amount),
        r is Ok ==> final(delegation).minter@ == old(delegation).minter@,
        r is Ok ==> amount <= old(delegation).allowance,
        r is Ok ==> final(delegation).allowance == old(delegation).allowance - amount,
        r is Err ==> account_unchanged(*old(destination), *final(destination)),
        r is Err ==> final(delegation).minter@ == old(delegation).minter@,
        r is Err ==> final(delegation).allowance == old(delegation).allowance,
{
    if !crate::state::bytes_eq(&delegation.minter, minter) {
        return Err(ErrorCode::Unauthorized);
    }
    if amount > delegation.allowance {
        return Err(ErrorCode::AllowanceExceeded);
    }
    if !crate::state::bytes_eq(&destination.mint, mint) {
        return Err(ErrorCode::Unauthorized);
    }
    if amount > u64::MAX - destination.amount {
        return Err(ErrorCode::Overflow);
    }
    delegation.allowance = delegation.allowance - amount;
    destination.amount = destination.amount + amount;
    Ok(())
}

} // verus!
