//! The liquidity-pool program's public instructions: thin handlers that
//! admit the account set and hand it to the processor.  Each contract
//! composes the validation's verdict with the processor's.

use vstd::prelude::*;

use crate::context::{
    spec_validate_deposit, spec_validate_freeze_thaw, spec_validate_initialize_market,
    CreateCredixPass, DepositFunds, FreezeThawLpTokens, InitializeMarket, UpdateCredixPass,
};
use crate::errors::ErrorCode;
use crate::processor;
use crate::processor::{
    spec_freeze_lp_tokens, spec_initialized_market_state, spec_process_deposit,
    spec_thaw_lp_tokens,
};
use crate::state::CredixPass;
use crate::token::TokenAccount;
use crate::util::spec_civic_check;

verus! {

/// Initializes a market: the state account records the mints, the
/// gatekeeper network and the bumps.
pub fn initialize_market(
    ctx: &mut InitializeMarket,
    signing_authority_bump: u8,
    global_market_state_bump: u8,
) -> (r: Result<(), ErrorCode>)
    ensures
        match r {
            Ok(()) => spec_validate_initialize_market(*old(ctx)) is Ok && *final(ctx)
                == (InitializeMarket {
                global_market_state: spec_initialized_market_state(
                    *old(ctx),
                    signing_authority_bump,
                    global_market_state_bump,
                ),
                ..*old(ctx)
            }),
            Err(e) => spec_validate_initialize_market(*old(ctx)) == Err::<(), ErrorCode>(e)
                && *final(ctx) == *old(ctx),
        },
{
    if let Err(e) = ctx.validate() {
        return Err(e);
    }
    processor::process_initialize_market(ctx, signing_authority_bump, global_market_state_bump)
}

/// What the deposit handler yields: the validation's verdict first, then
/// the credential check, then the deposit itself.
pub open spec fn spec_deposit_funds(ctx: DepositFunds, amount: u64) -> Result<
    DepositFunds,
    ErrorCode,
> {
    match spec_validate_deposit(ctx, amount) {
        Err(e) => Err(e),
        Ok(()) => {
            if spec_civic_check(
                ctx.investor.key,
                ctx.gateway_token,
                ctx.global_market_state.gatekeeper_network,
            ) is Err {
                Err(ErrorCode::UnauthorizedSigner)
            } else {
                spec_process_deposit(ctx, amount)
            }
        },
    }
}

/// Deposits base tokens and issues pool shares for them.  The credential
/// gate is consulted before any token moves; credential failures are
/// folded onto `UnauthorizedSigner`.
pub fn deposit_funds(ctx: &mut DepositFunds, amount: u64) -> (r: Result<(), ErrorCode>)
    ensures
        match r {
            Ok(()) => spec_deposit_funds(*old(ctx), amount) == Ok::<DepositFunds, ErrorCode>(
                *final(ctx),
            ),
            Err(e) => spec_deposit_funds(*old(ctx), amount) == Err::<DepositFunds, ErrorCode>(e)
                && *final(ctx) == *old(ctx),
        },
{
    if let Err(e) = ctx.validate(amount) {
        return Err(e);
    }
    if let Err(_) = crate::util::civic_check(
        ctx.investor.key,
        &ctx.gateway_token,
        ctx.global_market_state.gatekeeper_network,
    ) {
        return Err(ErrorCode::UnauthorizedSigner);
    }
    processor::process_deposit(ctx, amount)
}

/// Creates a holder's pass: active from the start, under the given bump.
pub fn create_credix_pass(ctx: &mut CreateCredixPass, pass_bump: u8) -> (r: Result<(), ErrorCode>)
    ensures
        match r {
            Ok(()) => old(ctx).owner.is_signer && *final(ctx) == (CreateCredixPass {
                credix_pass: CredixPass {
                    bump: pass_bump,
                    active: true,
                    ..old(ctx).credix_pass
                },
                ..*old(ctx)
            }),
            Err(e) => !old(ctx).owner.is_signer && e == ErrorCode::UnauthorizedSigner
                && *final(ctx) == *old(ctx),
        },
{
    if let Err(e) = ctx.validate() {
        return Err(e);
    }
    processor::process_create_credix_pass(ctx, pass_bump)
}

/// Turns a holder's pass on or off.
pub fn update_credix_pass(ctx: &mut UpdateCredixPass, is_active: bool) -> (r: Result<
    (),
    ErrorCode,
>)
    ensures
        match r {
            Ok(()) => old(ctx).owner.is_signer && *final(ctx) == (UpdateCredixPass {
                credix_pass: CredixPass { active: is_active, ..old(ctx).credix_pass },
                ..*old(ctx)
            }),
            Err(e) => !old(ctx).owner.is_signer && e == ErrorCode::UnauthorizedSigner
                && *final(ctx) == *old(ctx),
        },
{
    if let Err(e) = ctx.validate() {
        return Err(e);
    }
    processor::process_update_credix_pass(ctx, is_active)
}

/// What the freeze handler yields: the validation's verdict, then the
/// credential check, then the idempotent freeze.
pub open spec fn spec_freeze_handler(ctx: FreezeThawLpTokens) -> Result<TokenAccount, ErrorCode> {
    match spec_validate_freeze_thaw(ctx) {
        Err(e) => Err(e),
        Ok(()) => spec_freeze_lp_tokens(ctx),
    }
}

/// Freezes the holder's pool-share account, at the proxy's request.
pub fn freeze_lp_tokens(ctx: &mut FreezeThawLpTokens) -> (r: Result<(), ErrorCode>)
    ensures
        match r {
            Ok(()) => spec_freeze_handler(*old(ctx)) == Ok::<TokenAccount, ErrorCode>(
                final(ctx).lp_token_account,
            ) && *final(ctx) == (FreezeThawLpTokens {
                lp_token_account: final(ctx).lp_token_account,
                ..*old(ctx)
            }),
            Err(e) => spec_freeze_handler(*old(ctx)) == Err::<TokenAccount, ErrorCode>(e)
                && *final(ctx) == *old(ctx),
        },
{
    if let Err(e) = ctx.validate() {
        return Err(e);
    }
    processor::freeze_lp_tokens(ctx)
}

/// What the thaw handler yields: the validation's verdict, then the
/// credential check, then the idempotent thaw.
pub open spec fn spec_thaw_handler(ctx: FreezeThawLpTokens) -> Result<TokenAccount, ErrorCode> {
    match spec_validate_freeze_thaw(ctx) {
        Err(e) => Err(e),
        Ok(()) => spec_thaw_lp_tokens(ctx),
    }
}

/// Thaws the holder's pool-share account, at the proxy's request.
pub fn thaw_lp_tokens(ctx: &mut FreezeThawLpTokens) -> (r: Result<(), ErrorCode>)
    ensures
        match r {
            Ok(()) => spec_thaw_handler(*old(ctx)) == Ok::<TokenAccount, ErrorCode>(
                final(ctx).lp_token_account,
            ) && *final(ctx) == (FreezeThawLpTokens {
                lp_token_account: final(ctx).lp_token_account,
                ..*old(ctx)
            }),
            Err(e) => spec_thaw_handler(*old(ctx)) == Err::<TokenAccount, ErrorCode>(e)
                && *final(ctx) == *old(ctx),
        },
{
    if let Err(e) = ctx.validate() {
        return Err(e);
    }
    processor::thaw_lp_tokens(ctx)
}

} // verus!
