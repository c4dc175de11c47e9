//! The liquidity-pool program's instruction processors, over the modelled
//! account sets.  Each processor states exactly which state it changes and
//! on which inputs it fails; any failure leaves every account untouched,
//! as the surrounding atomic call guarantees.

use vstd::prelude::*;

use crate::context::{
    CreateCredixPass, DepositFunds, FreezeThawLpTokens, InitializeMarket, UpdateCredixPass,
};
use crate::errors::ErrorCode;
use crate::spl_token_utils::{
    freeze_lp_token_account, mint_lp_tokens, spec_freeze_account, spec_mint_lp_tokens,
    spec_thaw_account, spec_transfer_base, thaw_lp_token_account, transfer_base,
};
use crate::state::{CredixPass, GlobalMarketState};
use crate::token::TokenAccount;
use crate::util::{civic_check, spec_civic_check};

verus! {

/// The market state initialization writes: the pool-share mint, the base
/// mint, the gatekeeper network, and the two bumps.
pub open spec fn spec_initialized_market_state(
    ctx: InitializeMarket,
    signing_authority_bump: u8,
    global_market_state_bump: u8,
) -> GlobalMarketState {
    GlobalMarketState {
        gatekeeper_network: ctx.gatekeeper_network.key,
        liquidity_pool_token_mint_account: ctx.base_mint_account.key,
        lp_token_mint_account: ctx.lp_token_mint_account.key,
        signing_authority_bump,
        bump: global_market_state_bump,
    }
}

/// Records the market's configuration in its state account.
pub fn process_initialize_market(
    ctx: &mut InitializeMarket,
    signing_authority_bump: u8,
    global_market_state_bump: u8,
) -> (r: Result<(), ErrorCode>)
    ensures
        r is Ok,
        *final(ctx) == (InitializeMarket {
            global_market_state: spec_initialized_market_state(
                *old(ctx),
                signing_authority_bump,
                global_market_state_bump,
            ),
            ..*old(ctx)
        }),
{
    ctx.global_market_state = GlobalMarketState {
        gatekeeper_network: ctx.gatekeeper_network.key,
        liquidity_pool_token_mint_account: ctx.base_mint_account.key,
        lp_token_mint_account: ctx.lp_token_mint_account.key,
        signing_authority_bump,
        bump: global_market_state_bump,
    };
    Ok(())
}

/// What a deposit does: the credential check, the base-token transfer into
/// the pool, then pool shares issued to the investor — whose share account
/// ends frozen.
pub open spec fn spec_process_deposit(ctx: DepositFunds, amount: u64) -> Result<
    DepositFunds,
    ErrorCode,
> {
    if spec_civic_check(
        ctx.investor.key,
        ctx.gateway_token,
        ctx.global_market_state.gatekeeper_network,
    ) is Err {
        Err(ErrorCode::UnauthorizedSigner)
    } else {
        match spec_transfer_base(
            ctx.investor_token_account,
            ctx.liquidity_pool_token_account,
            ctx.investor,
            amount,
        ) {
            Err(e) => Err(e),
            Ok((from2, to2)) => {
                match spec_mint_lp_tokens(
                    ctx.lp_token_mint_account,
                    ctx.investor_lp_token_account,
                    ctx.signing_authority.key,
                    amount,
                ) {
                    Err(e) => Err(e),
                    Ok((mint2, lp2)) => Ok(DepositFunds {
                        investor_token_account: from2,
                        liquidity_pool_token_account: to2,
                        lp_token_mint_account: mint2,
                        investor_lp_token_account: lp2,
                        ..ctx
                    }),
                }
            },
        }
    }
}

/// Deposits base tokens into the pool and issues pool shares for them.
/// Credential failures are folded onto `UnauthorizedSigner`.
pub fn process_deposit(ctx: &mut DepositFunds, amount: u64) -> (r: Result<(), ErrorCode>)
    ensures
        match r {
            Ok(()) => spec_process_deposit(*old(ctx), amount) == Ok::<DepositFunds, ErrorCode>(
                *final(ctx),
            ),
            Err(e) => spec_process_deposit(*old(ctx), amount) == Err::<DepositFunds, ErrorCode>(e)
                && *final(ctx) == *old(ctx),
        },
{
    if let Err(_) = civic_check(
        ctx.investor.key,
        &ctx.gateway_token,
        ctx.global_market_state.gatekeeper_network,
    ) {
        return Err(ErrorCode::UnauthorizedSigner);
    }
    let mut from_local = ctx.investor_token_account;
    let mut to_local = ctx.liquidity_pool_token_account;
    if let Err(e) = transfer_base(amount, &mut from_local, &mut to_local, &ctx.investor) {
        return Err(e);
    }
    let mut mint_local = ctx.lp_token_mint_account;
    let mut lp_local = ctx.investor_lp_token_account;
    if let Err(e) = mint_lp_tokens(
        &mut mint_local,
        &mut lp_local,
        &ctx.signing_authority,
        &ctx.global_market_state,
        amount,
    ) {
        return Err(e);
    }
    ctx.investor_token_account = from_local;
    ctx.liquidity_pool_token_account = to_local;
    ctx.lp_token_mint_account = mint_local;
    ctx.investor_lp_token_account = lp_local;
    Ok(())
}

/// Brings a holder's pass into existence: active, under the given bump.
pub fn process_create_credix_pass(ctx: &mut CreateCredixPass, pass_bump: u8) -> (r: Result<
    (),
    ErrorCode,
>)
    ensures
        r is Ok,
        *final(ctx) == (CreateCredixPass {
            credix_pass: CredixPass {
                bump: pass_bump,
                active: true,
                ..old(ctx).credix_pass
            },
            ..*old(ctx)
        }),
{
    ctx.credix_pass = CredixPass { bump: pass_bump, active: true, ..ctx.credix_pass };
    Ok(())
}

/// Turns a holder's pass on or off.
pub fn process_update_credix_pass(ctx: &mut UpdateCredixPass, is_active: bool) -> (r: Result<
    (),
    ErrorCode,
>)
    ensures
        r is Ok,
        *final(ctx) == (UpdateCredixPass {
            credix_pass: CredixPass { active: is_active, ..old(ctx).credix_pass },
            ..*old(ctx)
        }),
{
    ctx.credix_pass = CredixPass { active: is_active, ..ctx.credix_pass };
    Ok(())
}

/// What freezing a holder's pool-share account does: the credential check,
/// then the idempotent freeze under the market's signing authority.
pub open spec fn spec_freeze_lp_tokens(ctx: FreezeThawLpTokens) -> Result<
    TokenAccount,
    ErrorCode,
> {
    if spec_civic_check(
        ctx.lp_holder.key,
        ctx.gateway_token,
        ctx.global_market_state.gatekeeper_network,
    ) is Err {
        Err(ErrorCode::UnauthorizedSigner)
    } else {
        spec_freeze_account(ctx.lp_token_account, ctx.lp_token_mint_account, ctx.signing_authority.key)
    }
}

/// Freezes the holder's pool-share account after the credential check.
pub fn freeze_lp_tokens(ctx: &mut FreezeThawLpTokens) -> (r: Result<(), ErrorCode>)
    ensures
        match r {
            Ok(()) => spec_freeze_lp_tokens(*old(ctx)) == Ok::<TokenAccount, ErrorCode>(
                final(ctx).lp_token_account,
            ) && *final(ctx) == (FreezeThawLpTokens {
                lp_token_account: final(ctx).lp_token_account,
                ..*old(ctx)
            }),
            Err(e) => spec_freeze_lp_tokens(*old(ctx)) == Err::<TokenAccount, ErrorCode>(e)
                && *final(ctx) == *old(ctx),
        },
{
    if let Err(_) = civic_check(
        ctx.lp_holder.key,
        &ctx.gateway_token,
        ctx.global_market_state.gatekeeper_network,
    ) {
        return Err(ErrorCode::UnauthorizedSigner);
    }
    let mut acc_local = ctx.lp_token_account;
    if let Err(e) = freeze_lp_token_account(
        &mut acc_local,
        &ctx.lp_token_mint_account,
        &ctx.signing_authority,
        &ctx.global_market_state,
    ) {
        return Err(e);
    }
    ctx.lp_token_account = acc_local;
    Ok(())
}

/// What thawing a holder's pool-share account does: the credential check,
/// then the idempotent thaw under the market's signing authority.
pub open spec fn spec_thaw_lp_tokens(ctx: FreezeThawLpTokens) -> Result<TokenAccount, ErrorCode> {
    if spec_civic_check(
        ctx.lp_holder.key,
        ctx.gateway_token,
        ctx.global_market_state.gatekeeper_network,
    ) is Err {
        Err(ErrorCode::UnauthorizedSigner)
    } else {
        spec_thaw_account(ctx.lp_token_account, ctx.lp_token_mint_account, ctx.signing_authority.key)
    }
}

/// Thaws the holder's pool-share account after the credential check.
pub fn thaw_lp_tokens(ctx: &mut FreezeThawLpTokens) -> (r: Result<(), ErrorCode>)
    ensures
        match r {
            Ok(()) => spec_thaw_lp_tokens(*old(ctx)) == Ok::<TokenAccount, ErrorCode>(
                final(ctx).lp_token_account,
            ) && *final(ctx) == (FreezeThawLpTokens {
                lp_token_account: final(ctx).lp_token_account,
                ..*old(ctx)
            }),
            Err(e) => spec_thaw_lp_tokens(*old(ctx)) == Err::<TokenAccount, ErrorCode>(e)
                && *final(ctx) == *old(ctx),
        },
{
    if let Err(_) = civic_check(
        ctx.lp_holder.key,
        &ctx.gateway_token,
        ctx.global_market_state.gatekeeper_network,
    ) {
        return Err(ErrorCode::UnauthorizedSigner);
    }
    let mut acc_local = ctx.lp_token_account;
    if let Err(e) = thaw_lp_token_account(
        &mut acc_local,
        &ctx.lp_token_mint_account,
        &ctx.signing_authority,
        &ctx.global_market_state,
    ) {
        return Err(e);
    }
    ctx.lp_token_account = acc_local;
    Ok(())
}

} // verus!
