//! Authority creation: the decimals gate, vault binding checks, and the
//! collision that makes a second authority for the same pair impossible.

use redeemer::authority::{create_redeemer, derive_authority_address, AuthorityRegistry};
use redeemer::{CreateRedeemer, ErrorCode, MintInfo, ReadonlyTokenPair, TokenAccount};

fn id(b: u8) -> Vec<u8> {
    vec![b; 32]
}

fn pair_for(iou: u8, red: u8, iou_dec: u8, red_dec: u8, vault_owner: Vec<u8>) -> ReadonlyTokenPair {
    ReadonlyTokenPair {
        iou_mint: MintInfo { id: id(iou), decimals: iou_dec },
        redemption_mint: MintInfo { id: id(red), decimals: red_dec },
        redemption_vault: TokenAccount {
            id: id(0x30),
            mint: id(red),
            owner: vault_owner,
            amount: 0,
        },
    }
}

#[test]
fn scenario_create_then_collide() {
    let (address, bump) = derive_authority_address(&id(1), &id(2)).unwrap();
    let mut registry = AuthorityRegistry::new();
    let ctx = CreateRedeemer { tokens: pair_for(1, 2, 6, 6, address.clone()) };

    let redeemer = create_redeemer(&mut registry, &ctx).unwrap();
    assert_eq!(redeemer.bump, bump);
    assert_eq!(redeemer.iou_mint, id(1));
    assert_eq!(redeemer.redemption_mint, id(2));
    assert_eq!(redeemer.redemption_vault, id(0x30));
    assert_eq!(registry.entries.len(), 1);
    assert_eq!(registry.entries[0].address, address);

    let again = create_redeemer(&mut registry, &ctx);
    assert!(matches!(again, Err(ErrorCode::AuthorityExists)));
    assert_eq!(registry.entries.len(), 1);
}

#[test]
fn decimals_mismatch_refused() {
    let (address, _) = derive_authority_address(&id(1), &id(2)).unwrap();
    let mut registry = AuthorityRegistry::new();
    let ctx = CreateRedeemer { tokens: pair_for(1, 2, 6, 9, address) };
    let r = create_redeemer(&mut registry, &ctx);
    assert!(matches!(r, Err(ErrorCode::DecimalsMismatch)));
    assert_eq!(registry.entries.len(), 0);
}

#[test]
fn wrong_vault_owner_refused() {
    let mut registry = AuthorityRegistry::new();
    let ctx = CreateRedeemer { tokens: pair_for(1, 2, 6, 6, id(0x77)) };
    let r = create_redeemer(&mut registry, &ctx);
    assert!(matches!(r, Err(ErrorCode::Unauthorized)));
    assert_eq!(registry.entries.len(), 0);
}

#[test]
fn wrong_vault_mint_refused() {
    let (address, _) = derive_authority_address(&id(1), &id(2)).unwrap();
    let mut registry = AuthorityRegistry::new();
    let mut tokens = pair_for(1, 2, 6, 6, address);
    tokens.redemption_vault.mint = id(9);
    let r = create_redeemer(&mut registry, &CreateRedeemer { tokens });
    assert!(matches!(r, Err(ErrorCode::Unauthorized)));
    assert_eq!(registry.entries.len(), 0);
}

#[test]
fn derivation_is_deterministic_and_pair_scoped() {
    let (a1, b1) = derive_authority_address(&id(1), &id(2)).unwrap();
    let (a2, b2) = derive_authority_address(&id(1), &id(2)).unwrap();
    assert_eq!(a1, a2);
    assert_eq!(b1, b2);
    assert_eq!(a1.len(), 32);
    // the derivation computes a digest-based address, never an input echoed back
    assert_ne!(a1, id(1));
    assert_ne!(a1, id(2));
    let (other, _) = derive_authority_address(&id(2), &id(1)).unwrap();
    assert_ne!(a1, other);
}

#[test]
fn signer_seeds_name_the_pair_and_bump() {
    let (address, bump) = derive_authority_address(&id(1), &id(2)).unwrap();
    let mut registry = AuthorityRegistry::new();
    let ctx = CreateRedeemer { tokens: pair_for(1, 2, 6, 6, address) };
    let redeemer = create_redeemer(&mut registry, &ctx).unwrap();
    let seeds = redeemer.signer_seeds();
    assert_eq!(seeds.len(), 4);
    assert_eq!(seeds[0], b"Redeemer".to_vec());
    assert_eq!(seeds[1], id(1));
    assert_eq!(seeds[2], id(2));
    assert_eq!(seeds[3], vec![bump]);
}
