//! The plain-value model of the ledger entities the redemption authority
//! works over: token mints, token accounts, the redeemer record, the
//! delegation held at the minting service, and the emitted redemption event.
//!
//! Identifiers are byte strings, as ledger account addresses are.

use vstd::prelude::*;

verus! {

/// A token mint: its address and its fractional precision.
#[derive(Debug)]
pub struct MintInfo {
    pub id: Vec<u8>,
    pub decimals: u8,
}

/// A token account on the ledger: its address, the mint of the token it
/// holds, the identity allowed to debit it, and its balance.
#[derive(Debug)]
pub struct TokenAccount {
    pub id: Vec<u8>,
    pub mint: Vec<u8>,
    pub owner: Vec<u8>,
    pub amount: u64,
}

/// The stored redeemer authority record: the derivation discriminant and the
/// token pair (and reserve vault) it is bound to. Immutable once created.
#[derive(Debug)]
pub struct Redeemer {
    pub bump: u8,
    pub iou_mint: Vec<u8>,
    pub redemption_mint: Vec<u8>,
    pub redemption_vault: Vec<u8>,
}

/// The record emitted once per successful redemption.
#[derive(Debug)]
pub struct RedeemTokensEvent {
    pub user: Vec<u8>,
    pub iou_mint: Vec<u8>,
    pub destination_mint: Vec<u8>,
    pub amount: u64,
}

/// The capability record held by the minting service: which authority may
/// request minting, and how much it may still mint.
#[derive(Debug)]
pub struct MinterDelegation {
    pub minter: Vec<u8>,
    pub allowance: u64,
}

/// A created authority as stored: its derived address and its record.
#[derive(Debug)]
pub struct AuthorityEntry {
    pub address: Vec<u8>,
    pub redeemer: Redeemer,
}

/// The token pair read at authority creation.
#[derive(Debug)]
pub struct ReadonlyTokenPair {
    pub iou_mint: MintInfo,
    pub redemption_mint: MintInfo,
    pub redemption_vault: TokenAccount,
}

/// The token pair of a redemption request; the reserve vault may be debited.
#[derive(Debug)]
pub struct MutTokenPair {
    pub iou_mint: MintInfo,
    pub redemption_mint: MintInfo,
    pub redemption_vault: TokenAccount,
}

/// The accounts of the authority-creation operation.
#[derive(Debug)]
pub struct CreateRedeemer {
    pub tokens: ReadonlyTokenPair,
}

/// The accounts of a vault redemption: the authority record and its claimed
/// address, the token pair, the holder (source authority) and the holder's
/// source and destination accounts.
#[derive(Debug)]
pub struct RedeemTokens {
    pub redeemer: Redeemer,
    pub redeemer_address: Vec<u8>,
    pub tokens: MutTokenPair,
    pub source_authority: Vec<u8>,
    pub iou_source: TokenAccount,
    pub redemption_destination: TokenAccount,
}

/// The accounts of a mint-proxy redemption: a vault redemption context plus
/// the delegation record held at the minting service.
#[derive(Debug)]
pub struct RedeemTokensFromMintProxy {
    pub redeem_ctx: RedeemTokens,
    pub minter_info: MinterDelegation,
}

/// The two accounts name the same ledger entry and token.
pub open spec fn same_account_ids(a: TokenAccount, b: TokenAccount) -> bool {
    a.id@ == b.id@ && a.mint@ == b.mint@ && a.owner@ == b.owner@
}

/// `b` is `a` untouched.
pub open spec fn account_unchanged(a: TokenAccount, b: TokenAccount) -> bool {
    same_account_ids(a, b) && b.amount == a.amount
}

/// `b` is `a` with exactly `amount` taken out of its balance.
pub open spec fn debited(a: TokenAccount, b: TokenAccount, amount: u64) -> bool {
    same_account_ids(a, b) && amount <= a.amount && b.amount == a.amount - amount
}

/// `b` is `a` with exactly `amount` added to its balance.
pub open spec fn credited(a: TokenAccount, b: TokenAccount, amount: u64) -> bool {
    same_account_ids(a, b) && a.amount + amount <= u64::MAX && b.amount == a.amount + amount
}

/// `b` is `a` untouched.
pub open spec fn mint_info_unchanged(a: MintInfo, b: MintInfo) -> bool {
    b.id@ == a.id@ && b.decimals == a.decimals
}

/// The two records bind the same pair, vault and discriminant.
pub open spec fn redeemer_eq(a: Redeemer, b: Redeemer) -> bool {
    b.bump == a.bump && b.iou_mint@ == a.iou_mint@ && b.redemption_mint@ == a.redemption_mint@
        && b.redemption_vault@ == a.redemption_vault@
}

/// Byte-string equality, decided by comparing every position.
pub fn bytes_eq(a: &Vec<u8>, b: &Vec<u8>) -> (r: bool)
    ensures
        r == (a@ == b@),
{
    if a.len() != b.len() {
        proof {
            assert(a@ != b@);
        }
        return false;
    }
    let mut i: usize = 0;
    while i < a.len()
        invariant
            i <= a@.len(),
            a@.len() == b@.len(),
            forall|j: int| 0 <= j < i ==> a@[j] == b@[j],
        decreases a@.len() - i,
    {
        if a[i] != b[i] {
            proof {
                assert(a@ != b@);
            }
            return false;
        }
        i = i + 1;
    }
    proof {
        assert(a@ =~= b@);
    }
    true
}

/// A fresh byte string with the same contents.
pub fn clone_bytes(v: &Vec<u8>) -> (r: Vec<u8>)
    ensures
        r@ == v@,
{
    let mut r: Vec<u8> = Vec::new();
    let mut i: usize = 0;
    while i < v.len()
        invariant
            i <= v@.len(),
            r@.len() == i,
            forall|j: int| 0 <= j < i ==> r@[j] == v@[j],
        decreases v@.len() - i,
    {
        r.push(v[i]);
        i = i + 1;
    }
    proof {
        assert(r@ =~= v@);
    }
    r
}

} // verus!
