//! A token-redemption authority: holders of an IOU token burn it and receive
//! the matching amount of a redemption token, either out of a pre-funded
//! reserve vault or by a delegated request to an external minting service.
//!
//! The crate models the ledger's accounts as plain values and proves the
//! validation rules and the two redemption transitions over that model.

use vstd::prelude::*;

pub mod authority;
pub mod engine;
pub mod ledger;
pub mod minting;
pub mod state;

pub use state::{
    CreateRedeemer, MintInfo, MinterDelegation, MutTokenPair, ReadonlyTokenPair, RedeemTokens,
    RedeemTokensEvent, RedeemTokensFromMintProxy, Redeemer, TokenAccount,
};

verus! {

/// The reasons a setup or redemption request is refused.
#[derive(Clone, Copy, Debug, PartialEq, Eq, Structural)]
pub enum ErrorCode {
    /// A signer or account-binding check failed, or the authority
    /// derivation is ill-formed.
    Unauthorized,
    /// The IOU and redemption token precisions differ.
    DecimalsMismatch,
    /// The source or the reserve vault holds less than the requested amount.
    InsufficientFunds,
    /// The minting service refused: the delegated allowance is exhausted.
    AllowanceExceeded,
    /// Crediting the destination would overflow its balance.
    Overflow,
    /// An authority for this token pair already exists.
    AuthorityExists,
}

} // verus!
