//! The two redemption transitions: vault mode and mint-proxy mode, the
//! failure cases that must leave the ledger untouched, and the order of the
//! committed steps.

use redeemer::authority::derive_authority_address;
use redeemer::engine::{
    redeem_all_tokens_from_mint_proxy, redeem_tokens, redeem_tokens_from_mint_proxy,
    RedemptionStep,
};
use redeemer::{
    ErrorCode, MintInfo, MinterDelegation, MutTokenPair, RedeemTokens, RedeemTokensFromMintProxy,
    Redeemer, TokenAccount,
};

fn id(b: u8) -> Vec<u8> {
    vec![b; 32]
}

const IOU: u8 = 1;
const RED: u8 = 2;
const VAULT: u8 = 0x30;
const HOLDER: u8 = 0x40;
const SOURCE: u8 = 0x41;
const DEST: u8 = 0x42;

fn vault_ctx(source_amount: u64, vault_amount: u64, dest_amount: u64) -> RedeemTokens {
    let (address, bump) = derive_authority_address(&id(IOU), &id(RED)).unwrap();
    RedeemTokens {
        redeemer: Redeemer {
            bump,
            iou_mint: id(IOU),
            redemption_mint: id(RED),
            redemption_vault: id(VAULT),
        },
        redeemer_address: address.clone(),
        tokens: MutTokenPair {
            iou_mint: MintInfo { id: id(IOU), decimals: 6 },
            redemption_mint: MintInfo { id: id(RED), decimals: 6 },
            redemption_vault: TokenAccount {
                id: id(VAULT),
                mint: id(RED),
                owner: address,
                amount: vault_amount,
            },
        },
        source_authority: id(HOLDER),
        iou_source: TokenAccount {
            id: id(SOURCE),
            mint: id(IOU),
            owner: id(HOLDER),
            amount: source_amount,
        },
        redemption_destination: TokenAccount {
            id: id(DEST),
            mint: id(RED),
            owner: id(HOLDER),
            amount: dest_amount,
        },
    }
}

fn proxy_ctx(source_amount: u64, allowance: u64) -> RedeemTokensFromMintProxy {
    let redeem_ctx = vault_ctx(source_amount, 0, 0);
    let minter = redeem_ctx.redeemer_address.clone();
    RedeemTokensFromMintProxy { redeem_ctx, minter_info: MinterDelegation { minter, allowance } }
}

#[test]
fn scenario_vault_redemption() {
    let mut ctx = vault_ctx(100, 1000, 0);
    let outcome = redeem_tokens(&mut ctx, 40).unwrap();
    assert_eq!(ctx.iou_source.amount, 60);
    assert_eq!(ctx.tokens.redemption_vault.amount, 960);
    assert_eq!(ctx.redemption_destination.amount, 40);
    assert_eq!(outcome.event.user, id(HOLDER));
    assert_eq!(outcome.event.iou_mint, id(IOU));
    assert_eq!(outcome.event.destination_mint, id(RED));
    assert_eq!(outcome.event.amount, 40);
    assert_eq!(
        outcome.steps,
        vec![
            RedemptionStep::Burned { amount: 40 },
            RedemptionStep::Credited { amount: 40 },
            RedemptionStep::Recorded { amount: 40 },
        ]
    );
}

#[test]
fn scenario_zero_amount_refused() {
    let mut ctx = vault_ctx(100, 1000, 0);
    let r = redeem_tokens(&mut ctx, 0);
    assert!(matches!(r, Err(ErrorCode::Unauthorized)));
    assert_eq!(ctx.iou_source.amount, 100);
    assert_eq!(ctx.tokens.redemption_vault.amount, 1000);
    assert_eq!(ctx.redemption_destination.amount, 0);
}

#[test]
fn overdraft_refused_without_partial_burn() {
    let mut ctx = vault_ctx(100, 1000, 0);
    let r = redeem_tokens(&mut ctx, 150);
    assert!(matches!(r, Err(ErrorCode::InsufficientFunds)));
    assert_eq!(ctx.iou_source.amount, 100);
    assert_eq!(ctx.tokens.redemption_vault.amount, 1000);
    assert_eq!(ctx.redemption_destination.amount, 0);
}

#[test]
fn underfunded_vault_refused_without_burn() {
    let mut ctx = vault_ctx(100, 30, 0);
    let r = redeem_tokens(&mut ctx, 40);
    assert!(matches!(r, Err(ErrorCode::InsufficientFunds)));
    assert_eq!(ctx.iou_source.amount, 100);
    assert_eq!(ctx.tokens.redemption_vault.amount, 30);
    assert_eq!(ctx.redemption_destination.amount, 0);
}

#[test]
fn foreign_holder_refused() {
    let mut ctx = vault_ctx(100, 1000, 0);
    ctx.iou_source.owner = id(0x55);
    let r = redeem_tokens(&mut ctx, 40);
    assert!(matches!(r, Err(ErrorCode::Unauthorized)));
    assert_eq!(ctx.iou_source.amount, 100);
    assert_eq!(ctx.tokens.redemption_vault.amount, 1000);
}

#[test]
fn wrong_authority_address_refused() {
    let mut ctx = vault_ctx(100, 1000, 0);
    ctx.redeemer_address = id(0x66);
    let r = redeem_tokens(&mut ctx, 40);
    assert!(matches!(r, Err(ErrorCode::Unauthorized)));
    assert_eq!(ctx.iou_source.amount, 100);
}

#[test]
fn wrong_bump_refused() {
    let mut ctx = vault_ctx(100, 1000, 0);
    ctx.redeemer.bump = ctx.redeemer.bump.wrapping_add(1);
    let r = redeem_tokens(&mut ctx, 40);
    assert!(matches!(r, Err(ErrorCode::Unauthorized)));
    assert_eq!(ctx.iou_source.amount, 100);
}

#[test]
fn destination_overflow_refused() {
    let mut ctx = vault_ctx(100, 1000, u64::MAX - 10);
    let r = redeem_tokens(&mut ctx, 40);
    assert!(matches!(r, Err(ErrorCode::Overflow)));
    assert_eq!(ctx.iou_source.amount, 100);
    assert_eq!(ctx.redemption_destination.amount, u64::MAX - 10);
}

#[test]
fn scenario_redeem_all_via_mint_proxy() {
    let mut ctx = proxy_ctx(50, 1000);
    let outcome = redeem_all_tokens_from_mint_proxy(&mut ctx).unwrap();
    assert_eq!(ctx.redeem_ctx.iou_source.amount, 0);
    assert_eq!(ctx.redeem_ctx.redemption_destination.amount, 50);
    assert_eq!(ctx.minter_info.allowance, 950);
    assert_eq!(outcome.event.amount, 50);
    assert_eq!(
        outcome.steps,
        vec![
            RedemptionStep::Burned { amount: 50 },
            RedemptionStep::Credited { amount: 50 },
            RedemptionStep::Recorded { amount: 50 },
        ]
    );
}

#[test]
fn scenario_exhausted_allowance_leaves_ledger_unchanged() {
    let mut ctx = proxy_ctx(50, 30);
    let r = redeem_tokens_from_mint_proxy(&mut ctx, 50);
    assert!(matches!(r, Err(ErrorCode::AllowanceExceeded)));
    // the burn must not have committed
    assert_eq!(ctx.redeem_ctx.iou_source.amount, 50);
    assert_eq!(ctx.redeem_ctx.redemption_destination.amount, 0);
    assert_eq!(ctx.minter_info.allowance, 30);
}

#[test]
fn partial_mint_proxy_redemption() {
    let mut ctx = proxy_ctx(50, 1000);
    let outcome = redeem_tokens_from_mint_proxy(&mut ctx, 20).unwrap();
    assert_eq!(ctx.redeem_ctx.iou_source.amount, 30);
    assert_eq!(ctx.redeem_ctx.redemption_destination.amount, 20);
    assert_eq!(ctx.minter_info.allowance, 980);
    assert_eq!(outcome.event.amount, 20);
}

#[test]
fn foreign_delegation_refused() {
    let mut ctx = proxy_ctx(50, 1000);
    ctx.minter_info.minter = id(0x77);
    let r = redeem_tokens_from_mint_proxy(&mut ctx, 20);
    assert!(matches!(r, Err(ErrorCode::Unauthorized)));
    assert_eq!(ctx.redeem_ctx.iou_source.amount, 50);
    assert_eq!(ctx.minter_info.allowance, 1000);
}

#[test]
fn mint_proxy_overdraft_refused() {
    let mut ctx = proxy_ctx(50, 1000);
    let r = redeem_tokens_from_mint_proxy(&mut ctx, 60);
    assert!(matches!(r, Err(ErrorCode::InsufficientFunds)));
    assert_eq!(ctx.redeem_ctx.iou_source.amount, 50);
    assert_eq!(ctx.redeem_ctx.redemption_destination.amount, 0);
    assert_eq!(ctx.minter_info.allowance, 1000);
}

#[test]
fn mint_proxy_destination_overflow_refused() {
    let mut ctx = proxy_ctx(50, 1000);
    ctx.redeem_ctx.redemption_destination.amount = u64::MAX - 10;
    let r = redeem_tokens_from_mint_proxy(&mut ctx, 20);
    assert!(matches!(r, Err(ErrorCode::Overflow)));
    assert_eq!(ctx.redeem_ctx.iou_source.amount, 50);
    assert_eq!(ctx.redeem_ctx.redemption_destination.amount, u64::MAX - 10);
    assert_eq!(ctx.minter_info.allowance, 1000);
}

#[test]
fn redeem_all_of_empty_account_refused() {
    let mut ctx = proxy_ctx(0, 1000);
    let r = redeem_all_tokens_from_mint_proxy(&mut ctx);
    assert!(matches!(r, Err(ErrorCode::Unauthorized)));
    assert_eq!(ctx.minter_info.allowance, 1000);
}
