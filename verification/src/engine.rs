//! The redemption engine: the two redemption transitions over the modelled
//! ledger. Each request is one atomic unit: every check runs before any
//! mutation, so a refused request leaves every account exactly as it was,
//! and a granted one commits the burn, then the credit, then the record.

use crate::state::{
    account_unchanged, clone_bytes, credited, debited, mint_info_unchanged, redeemer_eq,
    same_account_ids, MinterDelegation, RedeemTokens, RedeemTokensEvent, RedeemTokensFromMintProxy,
};
use crate::authority::authority_derivation;
use crate::{ledger, minting, ErrorCode};
use vstd::prelude::*;

verus! {

/// One committed step of a redemption, in the order the ledger saw it.
#[derive(Clone, Copy, Debug, PartialEq, Eq, Structural)]
pub enum RedemptionStep {
    /// The IOU amount was destroyed at the holder's source account.
    Burned { amount: u64 },
    /// The redemption amount reached the holder's destination account.
    Credited { amount: u64 },
    /// The redemption record was emitted.
    Recorded { amount: u64 },
}

/// What a successful redemption hands back: the emitted record and the
/// committed steps in order.
#[derive(Debug)]
pub struct RedemptionOutcome {
    pub event: RedeemTokensEvent,
    pub steps: Vec<RedemptionStep>,
}

/// The steps every successful redemption commits, in order: the burn, then
/// the credit, then the record.
pub open spec fn success_steps(amount: u64) -> Seq<RedemptionStep> {
    seq![
        RedemptionStep::Burned { amount },
        RedemptionStep::Credited { amount },
        RedemptionStep::Recorded { amount },
    ]
}

/// The structural bindings a redemption request must satisfy: the authority
/// record sits at its derived address with its stored bump; the named mints,
/// the vault, the holder's source and destination accounts are each bound to
/// the pair; and the three balance-carrying accounts are distinct entries.
pub open spec fn redeem_accounts_valid(ctx: RedeemTokens) -> bool {
    &&& authority_derivation(ctx.redeemer.iou_mint@, ctx.redeemer.redemption_mint@) == Some(
        (ctx.redeemer_address@, ctx.redeemer.bump),
    )
    &&& ctx.tokens.iou_mint.id@ == ctx.redeemer.iou_mint@
    &&& ctx.tokens.redemption_mint.id@ == ctx.redeemer.redemption_mint@
    &&& ctx.tokens.redemption_vault.id@ == ctx.redeemer.redemption_vault@
    &&& ctx.tokens.redemption_vault.mint@ == ctx.redeemer.redemption_mint@
    &&& ctx.tokens.redemption_vault.owner@ == ctx.redeemer_address@
    &&& ctx.iou_source.mint@ == ctx.redeemer.iou_mint@
    &&& ctx.iou_source.owner@ == ctx.source_authority@
    &&& ctx.redemption_destination.mint@ == ctx.redeemer.redemption_mint@
    &&& ctx.iou_source.id@ != ctx.redemption_destination.id@
    &&& ctx.iou_source.id@ != ctx.tokens.redemption_vault.id@
    &&& ctx.redemption_destination.id@ != ctx.tokens.redemption_vault.id@
}

/// A valid request: valid bindings and a positive amount.
pub open spec fn redeem_request_valid(ctx: RedeemTokens, amount: u64) -> bool {
    redeem_accounts_valid(ctx) && amount > 0
}

/// When a vault redemption goes through, and the error when it does not:
/// an ill-bound request or a zero amount is refused outright; then the burn
/// must be covered by the source, the transfer by the vault, and the credit
/// must not overflow the destination.
pub open spec fn vault_redeem_check(ctx: RedeemTokens, amount: u64) -> Result<(), ErrorCode> {
    if !redeem_request_valid(ctx, amount) {
        Err(ErrorCode::Unauthorized)
    } else if amount > ctx.iou_source.amount {
        Err(ErrorCode::InsufficientFunds)
    } else if amount > ctx.tokens.redemption_vault.amount {
        Err(ErrorCode::InsufficientFunds)
    } else if ctx.redemption_destination.amount + amount > u64::MAX {
        Err(ErrorCode::Overflow)
    } else {
        Ok(())
    }
}

/// When a mint-proxy redemption goes through: the same request validation
/// and burn cover as the vault path, then whatever the minting service
/// answers for the delegated request.
pub open spec fn mint_proxy_redeem_check(ctx: RedeemTokensFromMintProxy, amount: u64) -> Result<
    (),
    ErrorCode,
> {
    if !redeem_request_valid(ctx.redeem_ctx, amount) {
        Err(ErrorCode::Unauthorized)
    } else if amount > ctx.redeem_ctx.iou_source.amount {
        Err(ErrorCode::InsufficientFunds)
    } else {
        minting::mint_check(
            ctx.minter_info,
            ctx.redeem_ctx.redeemer_address@,
            ctx.redeem_ctx.redemption_destination,
            ctx.redeem_ctx.redeemer.redemption_mint@,
            amount,
        )
    }
}

/// The emitted record names the holder, the bound pair and the amount.
pub open spec fn event_matches(ev: RedeemTokensEvent, ctx: RedeemTokens, amount: u64) -> bool {
    &&& ev.user@ == ctx.source_authority@
    &&& ev.iou_mint@ == ctx.redeemer.iou_mint@
    &&& ev.destination_mint@ == ctx.redeemer.redemption_mint@
    &&& ev.amount == amount
}

/// Everything of the request but the three balances is as it was.
pub open spec fn redeem_ctx_frame(a: RedeemTokens, b: RedeemTokens) -> bool {
    &&& redeemer_eq(a.redeemer, b.redeemer)
    &&& b.redeemer_address@ == a.redeemer_address@
    &&& b.source_authority@ == a.source_authority@
    &&& mint_info_unchanged(a.tokens.iou_mint, b.tokens.iou_mint)
    &&& mint_info_unchanged(a.tokens.redemption_mint, b.tokens.redemption_mint)
    &&& same_account_ids(a.tokens.redemption_vault, b.tokens.redemption_vault)
    &&& same_account_ids(a.iou_source, b.iou_source)
    &&& same_account_ids(a.redemption_destination, b.redemption_destination)
}

/// The request is exactly as it was, balances included.
pub open spec fn redeem_ctx_unchanged(a: RedeemTokens, b: RedeemTokens) -> bool {
    &&& redeem_ctx_frame(a, b)
    &&& b.iou_source.amount == a.iou_source.amount
    &&& b.tokens.redemption_vault.amount == a.tokens.redemption_vault.amount
    &&& b.redemption_destination.amount == a.redemption_destination.amount
}

/// The delegation is exactly as it was.
pub open spec fn delegation_unchanged(a: MinterDelegation, b: MinterDelegation) -> bool {
    b.minter@ == a.minter@ && b.allowance == a.allowance
}

/// The whole contract of a vault redemption, as a relation between the
/// request before the call, the request after it, its result and the amount.
pub open spec fn vault_redeem_post(
    pre: RedeemTokens,
    post: RedeemTokens,
    r: Result<RedemptionOutcome, ErrorCode>,
    amount: u64,
) -> bool {
    &&& (r is Ok <==> vault_redeem_check(pre, amount) is Ok)
    &&& (r matches Err(e) ==> vault_redeem_check(pre, amount) == Err::<(), ErrorCode>(e)
        && redeem_ctx_unchanged(pre, post))
    &&& (r matches Ok(out) ==> {
        &&& redeem_ctx_frame(pre, post)
        &&& debited(pre.iou_source, post.iou_source, amount)
        &&& debited(pre.tokens.redemption_vault, post.tokens.redemption_vault, amount)
        &&& credited(pre.redemption_destination, post.redemption_destination, amount)
        &&& event_matches(out.event, pre, amount)
        &&& out.steps@ == success_steps(amount)
    })
}

/// The whole contract of a mint-proxy redemption: as the vault one, except
/// that the vault is untouched and the credit comes from the minting
/// service, which consumes exactly `amount` of the delegation's allowance.
pub open spec fn mint_proxy_redeem_post(
    pre: RedeemTokensFromMintProxy,
    post: RedeemTokensFromMintProxy,
    r: Result<RedemptionOutcome, ErrorCode>,
    amount: u64,
) -> bool {
    &&& (r is Ok <==> mint_proxy_redeem_check(pre, amount) is Ok)
    &&& (r matches Err(e) ==> mint_proxy_redeem_check(pre, amount) == Err::<(), ErrorCode>(e)
        && redeem_ctx_unchanged(pre.redeem_ctx, post.redeem_ctx)
        && delegation_unchanged(pre.minter_info, post.minter_info))
    &&& (r matches Ok(out) ==> {
        &&& redeem_ctx_frame(pre.redeem_ctx, post.redeem_ctx)
        &&& debited(pre.redeem_ctx.iou_source, post.redeem_ctx.iou_source, amount)
        &&& account_unchanged(
            pre.redeem_ctx.tokens.redemption_vault,
            post.redeem_ctx.tokens.redemption_vault,
        )
        &&& credited(
            pre.redeem_ctx.redemption_destination,
            post.redeem_ctx.redemption_destination,
            amount,
        )
        &&& post.minter_info.minter@ == pre.minter_info.minter@
        &&& amount <= pre.minter_info.allowance
        &&& post.minter_info.allowance == pre.minter_info.allowance - amount
        &&& event_matches(out.event, pre.redeem_ctx, amount)
        &&& out.steps@ == success_steps(amount)
    })
}

/// Decide whether a request's bindings hold, by re-deriving the authority's
/// address from its stored pair and comparing every binding.
fn check_redeem_accounts(ctx: &RedeemTokens) -> (r: bool)
    ensures
        r == redeem_accounts_valid(*ctx),
{
    let derived = crate::authority::derive_authority_address(
        &ctx.redeemer.iou_mint,
        &ctx.redeemer.redemption_mint,
    );
    match derived {
        None => false,
        Some(found) => {
            let (address, bump) = found;
            crate::state::bytes_eq(&address, &ctx.redeemer_address) && bump == ctx.redeemer.bump
                && crate::state::bytes_eq(&ctx.tokens.iou_mint.id, &ctx.redeemer.iou_mint)
                && crate::state::bytes_eq(
                &ctx.tokens.redemption_mint.id,
                &ctx.redeemer.redemption_mint,
            ) && crate::state::bytes_eq(
                &ctx.tokens.redemption_vault.id,
                &ctx.redeemer.redemption_vault,
            ) && crate::state::bytes_eq(
                &ctx.tokens.redemption_vault.mint,
                &ctx.redeemer.redemption_mint,
            ) && crate::state::bytes_eq(&ctx.tokens.redemption_vault.owner, &ctx.redeemer_address)
                && crate::state::bytes_eq(&ctx.iou_source.mint, &ctx.redeemer.iou_mint)
                && crate::state::bytes_eq(&ctx.iou_source.owner, &ctx.source_authority)
                && crate::state::bytes_eq(
                &ctx.redemption_destination.mint,
                &ctx.redeemer.redemption_mint,
            ) && !crate::state::bytes_eq(&ctx.iou_source.id, &ctx.redemption_destination.id)
                && !crate::state::bytes_eq(&ctx.iou_source.id, &ctx.tokens.redemption_vault.id)
                && !crate::state::bytes_eq(
                &ctx.redemption_destination.id,
                &ctx.tokens.redemption_vault.id,
            )
        },
    }
}

/// The record and step log of a granted redemption.
fn make_outcome(ctx: &RedeemTokens, amount: u64) -> (r: RedemptionOutcome)
    ensures
        event_matches(r.event, *ctx, amount),
        r.steps@ == success_steps(amount),
{
    let event = RedeemTokensEvent {
        user: clone_bytes(&ctx.source_authority),
        iou_mint: clone_bytes(&ctx.redeemer.iou_mint),
        destination_mint: clone_bytes(&ctx.redeemer.redemption_mint),
        amount,
    };
    let mut steps: Vec<RedemptionStep> = Vec::new();
    steps.push(RedemptionStep::Burned { amount });
    steps.push(RedemptionStep::Credited { amount });
    steps.push(RedemptionStep::Recorded { amount });
    proof {
        assert(steps@ =~= success_steps(amount));
    }
    RedemptionOutcome { event, steps }
}

/// Redeem `amount` of the holder's IOU tokens out of the reserve vault:
/// burn them at the source, transfer the same amount from the vault to the
/// destination under the authority's re-derived signature, and record it.
pub fn redeem_tokens(ctx: &mut RedeemTokens, amount: u64) -> (r: Result<
    RedemptionOutcome,
    ErrorCode,
>)
    ensures
        vault_redeem_post(*old(ctx), *final(ctx), r, amount),
{
    if !check_redeem_accounts(ctx) {
        return Err(ErrorCode::Unauthorized);
    }
    if amount == 0 {
        return Err(ErrorCode::Unauthorized);
    }
    if amount > ctx.iou_source.amount {
        return Err(ErrorCode::InsufficientFunds);
    }
    if amount > ctx.tokens.redemption_vault.amount {
        return Err(ErrorCode::InsufficientFunds);
    }
    if amount > u64::MAX - ctx.redemption_destination.amount {
        return Err(ErrorCode::Overflow);
    }
    let outcome = make_outcome(ctx, amount);
    match ledger::burn(&mut ctx.iou_source, &ctx.source_authority, amount) {
        Err(e) => {
            // the checks above established this call's success conditions
            proof {
                assert(false);
            }
            return Err(e);
        },
        Ok(()) => {},
    }
    match ledger::transfer(
        &mut ctx.tokens.redemption_vault,
        &mut ctx.redemption_destination,
        &ctx.redeemer_address,
        amount,
    ) {
        Err(e) => {
            // the checks above established this call's success conditions
            proof {
                assert(false);
            }
            return Err(e);
        },
        Ok(()) => {},
    }
    Ok(outcome)
}

/// Redeem `amount` of the holder's IOU tokens against the minting service:
/// burn them at the source, then have the service mint the same amount to
/// the destination under the delegation, and record it. The service's
/// policy is checked before the burn, so a refused mint discards the whole
/// request.
pub fn redeem_tokens_from_mint_proxy(ctx: &mut RedeemTokensFromMintProxy, amount: u64) -> (r:
    Result<RedemptionOutcome, ErrorCode>)
    ensures
        mint_proxy_redeem_post(*old(ctx), *final(ctx), r, amount),
{
    if !check_redeem_accounts(&ctx.redeem_ctx) {
        return Err(ErrorCode::Unauthorized);
    }
    if amount == 0 {
        return Err(ErrorCode::Unauthorized);
    }
    if amount > ctx.redeem_ctx.iou_source.amount {
        return Err(ErrorCode::InsufficientFunds);
    }
    if !crate::state::bytes_eq(&ctx.minter_info.minter, &ctx.redeem_ctx.redeemer_address) {
        return Err(ErrorCode::Unauthorized);
    }
    if amount > ctx.minter_info.allowance {
        return Err(ErrorCode::AllowanceExceeded);
    }
    if amount > u64::MAX - ctx.redeem_ctx.redemption_destination.amount {
        return Err(ErrorCode::Overflow);
    }
    let outcome = make_outcome(&ctx.redeem_ctx, amount);
    match ledger::burn(&mut ctx.redeem_ctx.iou_source, &ctx.redeem_ctx.source_authority, amount) {
        Err(e) => {
            // the checks above established this call's success conditions
            proof {
                assert(false);
            }
            return Err(e);
        },
        Ok(()) => {},
    }
    match minting::perform_mint(
        &mut ctx.minter_info,
        &mut ctx.redeem_ctx.redemption_destination,
        &ctx.redeem_ctx.redeemer_address,
        &ctx.redeem_ctx.redeemer.redemption_mint,
        amount,
    ) {
        Err(e) => {
            // the checks above established this call's success conditions
            proof {
                assert(false);
            }
            return Err(e);
        },
        Ok(()) => {},
    }
    Ok(outcome)
}

/// Conservation of value: whenever a redemption is granted, the holder's
/// IOU balance falls by exactly the redeemed amount and the destination's
/// balance rises by exactly that amount — what is burned equals what is
/// credited; in vault mode the vault falls by the same amount, in
/// mint-proxy mode the delegation's allowance does.
pub proof fn lemma_redemption_conserves_value(
    pre: RedeemTokens,
    post: RedeemTokens,
    mpre: RedeemTokensFromMintProxy,
    mpost: RedeemTokensFromMintProxy,
    r: Result<RedemptionOutcome, ErrorCode>,
    mr: Result<RedemptionOutcome, ErrorCode>,
    amount: u64,
)
    ensures
        vault_redeem_post(pre, post, r, amount) && r is Ok ==> post.iou_source.amount + amount
            == pre.iou_source.amount && post.redemption_destination.amount
            == pre.redemption_destination.amount + amount && post.tokens.redemption_vault.amount
            + amount == pre.tokens.redemption_vault.amount && pre.iou_source.amount
            - post.iou_source.amount == post.redemption_destination.amount
            - pre.redemption_destination.amount,
        mint_proxy_redeem_post(mpre, mpost, mr, amount) && mr is Ok ==> mpost.redeem_ctx.iou_source.amount
            + amount == mpre.redeem_ctx.iou_source.amount
            && mpost.redeem_ctx.redemption_destination.amount
            == mpre.redeem_ctx.redemption_destination.amount + amount
            && mpost.minter_info.allowance + amount == mpre.minter_info.allowance
            && mpre.redeem_ctx.iou_source.amount - mpost.redeem_ctx.iou_source.amount
            == mpost.redeem_ctx.redemption_destination.amount
            - mpre.redeem_ctx.redemption_destination.amount,
{
}

/// The IOU units a step log burns.
pub open spec fn burned_total(steps: Seq<RedemptionStep>) -> int
    decreases steps.len(),
{
    if steps.len() == 0 {
        0
    } else {
        (match steps[0] {
            RedemptionStep::Burned { amount } => amount as int,
            _ => 0,
        }) + burned_total(steps.drop_first())
    }
}

/// The redemption units a step log credits.
pub open spec fn credited_total(steps: Seq<RedemptionStep>) -> int
    decreases steps.len(),
{
    if steps.len() == 0 {
        0
    } else {
        (match steps[0] {
            RedemptionStep::Credited { amount } => amount as int,
            _ => 0,
        }) + credited_total(steps.drop_first())
    }
}

/// A granted redemption burns exactly the amount it credits.
pub proof fn lemma_steps_balance(amount: u64)
    ensures
        burned_total(success_steps(amount)) == amount as int,
        credited_total(success_steps(amount)) == amount as int,
{
    let s = success_steps(amount);
    let s1 = s.drop_first();
    let s2 = s1.drop_first();
    let s3 = s2.drop_first();
    assert(s1 =~= seq![RedemptionStep::Credited { amount }, RedemptionStep::Recorded { amount }]);
    assert(s2 =~= seq![RedemptionStep::Recorded { amount }]);
    assert(s3 =~= Seq::<RedemptionStep>::empty());
    assert(burned_total(s3) == 0 && credited_total(s3) == 0);
    assert(burned_total(s2) == 0 && credited_total(s2) == 0);
    assert(burned_total(s1) == 0 && credited_total(s1) == amount as int);
    assert(burned_total(s) == amount as int && credited_total(s) == amount as int);
}

/// Every log of the history is the step log of a granted redemption.
pub open spec fn all_success_logs(logs: Seq<Seq<RedemptionStep>>, amounts: Seq<u64>) -> bool {
    logs.len() == amounts.len() && forall|i: int|
        0 <= i < logs.len() ==> #[trigger] logs[i] == success_steps(amounts[i])
}

/// The IOU units a history of step logs burns.
pub open spec fn history_burned(logs: Seq<Seq<RedemptionStep>>) -> int
    decreases logs.len(),
{
    if logs.len() == 0 {
        0
    } else {
        burned_total(logs[0]) + history_burned(logs.drop_first())
    }
}

/// The redemption units a history of step logs credits.
pub open spec fn history_credited(logs: Seq<Seq<RedemptionStep>>) -> int
    decreases logs.len(),
{
    if logs.len() == 0 {
        0
    } else {
        credited_total(logs[0]) + history_credited(logs.drop_first())
    }
}

/// Conservation across all time: over any history of granted redemptions,
/// the IOU total they burn equals the redemption total they credit.
pub proof fn lemma_conservation_across_history(logs: Seq<Seq<RedemptionStep>>, amounts: Seq<u64>)
    requires
        all_success_logs(logs, amounts),
    ensures
        history_burned(logs) == history_credited(logs),
    decreases logs.len(),
{
    if logs.len() > 0 {
        assert(logs[0] == success_steps(amounts[0]));
        lemma_steps_balance(amounts[0]);
        assert forall|i: int|
            0 <= i < logs.drop_first().len() implies #[trigger] logs.drop_first()[i]
            == success_steps(amounts.drop_first()[i]) by {
            assert(logs.drop_first()[i] == logs[i + 1]);
            assert(amounts.drop_first()[i] == amounts[i + 1]);
        }
        lemma_conservation_across_history(logs.drop_first(), amounts.drop_first());
    }
}

/// No overdraft: a request for more than the source holds is refused with
/// the insufficient-funds error, and a refused request of either kind
/// leaves every balance and the delegation exactly as they were.
pub proof fn lemma_no_overdraft(
    ctx: RedeemTokens,
    mctx: RedeemTokensFromMintProxy,
    pre: RedeemTokens,
    post: RedeemTokens,
    mpre: RedeemTokensFromMintProxy,
    mpost: RedeemTokensFromMintProxy,
    r: Result<RedemptionOutcome, ErrorCode>,
    mr: Result<RedemptionOutcome, ErrorCode>,
    amount: u64,
)
    ensures
        redeem_accounts_valid(ctx) && amount > ctx.iou_source.amount ==> vault_redeem_check(
            ctx,
            amount,
        ) == Err::<(), ErrorCode>(ErrorCode::InsufficientFunds),
        redeem_accounts_valid(mctx.redeem_ctx) && amount > mctx.redeem_ctx.iou_source.amount
            ==> mint_proxy_redeem_check(mctx, amount) == Err::<(), ErrorCode>(
            ErrorCode::InsufficientFunds,
        ),
        vault_redeem_post(pre, post, r, amount) && r is Err ==> redeem_ctx_unchanged(pre, post),
        mint_proxy_redeem_post(mpre, mpost, mr, amount) && mr is Err ==> redeem_ctx_unchanged(
            mpre.redeem_ctx,
            mpost.redeem_ctx,
        ) && delegation_unchanged(mpre.minter_info, mpost.minter_info),
{
}

/// Ordering: every granted redemption commits its burn before its credit,
/// and its credit before its record — the step log of a success is exactly
/// burn, credit, record.
pub proof fn lemma_burn_precedes_credit(
    pre: RedeemTokens,
    post: RedeemTokens,
    mpre: RedeemTokensFromMintProxy,
    mpost: RedeemTokensFromMintProxy,
    r: Result<RedemptionOutcome, ErrorCode>,
    mr: Result<RedemptionOutcome, ErrorCode>,
    amount: u64,
)
    ensures
        vault_redeem_post(pre, post, r, amount) ==> (r matches Ok(out) ==> out.steps@.len() == 3
            && out.steps@[0] == (RedemptionStep::Burned { amount }) && out.steps@[1]
            == (RedemptionStep::Credited { amount }) && out.steps@[2] == (RedemptionStep::Recorded {
            amount,
        })),
        mint_proxy_redeem_post(mpre, mpost, mr, amount) ==> (mr matches Ok(out)
            ==> out.steps@.len() == 3 && out.steps@[0] == (RedemptionStep::Burned { amount })
            && out.steps@[1] == (RedemptionStep::Credited { amount }) && out.steps@[2]
            == (RedemptionStep::Recorded { amount })),
{
}

/// Redeem the holder's whole IOU balance against the minting service: the
/// balance is read at call time and forwarded as the amount.
pub fn redeem_all_tokens_from_mint_proxy(ctx: &mut RedeemTokensFromMintProxy) -> (r: Result<
    RedemptionOutcome,
    ErrorCode,
>)
    ensures
        mint_proxy_redeem_post(*old(ctx), *final(ctx), r, old(ctx).redeem_ctx.iou_source.amount),
{
    let amount = ctx.redeem_ctx.iou_source.amount;
    redeem_tokens_from_mint_proxy(ctx, amount)
}

} // verus!
