//! The liquidity-pool program's per-instruction account sets, with the
//! constraints each instruction demands of them.  A `validate` method
//! stands where the runtime's account resolution stands in the original:
//! it admits the call or rejects it before any state changes.  Signature
//! and account-binding violations are folded onto `UnauthorizedSigner`;
//! the quantity and pass constraints carry their own codes.

use vstd::prelude::*;

use crate::account::AccountHandle;
use crate::errors::ErrorCode;
use crate::state::{CredixPass, GlobalMarketState};
use crate::token::{Mint, TokenAccount};
use crate::util::GatewayToken;

verus! {

/// Accounts of the market-initialization instruction.
#[derive(Clone, Copy)]
pub struct InitializeMarket {
    pub owner: AccountHandle,
    pub gatekeeper_network: AccountHandle,
    pub global_market_state: GlobalMarketState,
    pub signing_authority: AccountHandle,
    pub liquidity_pool_token_account: TokenAccount,
    pub lp_token_mint_account: Mint,
    pub base_mint_account: Mint,
}

/// The constraints market initialization demands.
pub open spec fn spec_validate_initialize_market(ctx: InitializeMarket) -> Result<(), ErrorCode> {
    if !ctx.owner.is_signer {
        Err(ErrorCode::UnauthorizedSigner)
    } else if ctx.lp_token_mint_account.authority != ctx.signing_authority.key
        || ctx.lp_token_mint_account.freeze_authority != ctx.signing_authority.key {
        Err(ErrorCode::UnauthorizedSigner)
    } else if ctx.liquidity_pool_token_account.owner != ctx.signing_authority.key
        || ctx.liquidity_pool_token_account.mint != ctx.base_mint_account.key {
        Err(ErrorCode::UnauthorizedSigner)
    } else {
        Ok(())
    }
}

impl InitializeMarket {
    /// Admits or rejects the account set, as the runtime would.
    pub fn validate(&self) -> (r: Result<(), ErrorCode>)
        ensures
            r == spec_validate_initialize_market(*self),
    {
        if !self.owner.is_signer {
            Err(ErrorCode::UnauthorizedSigner)
        } else if self.lp_token_mint_account.authority != self.signing_authority.key
            || self.lp_token_mint_account.freeze_authority != self.signing_authority.key {
            Err(ErrorCode::UnauthorizedSigner)
        } else if self.liquidity_pool_token_account.owner != self.signing_authority.key
            || self.liquidity_pool_token_account.mint != self.base_mint_account.key {
            Err(ErrorCode::UnauthorizedSigner)
        } else {
            Ok(())
        }
    }
}

/// Accounts of the deposit instruction.
#[derive(Clone, Copy)]
pub struct DepositFunds {
    pub investor: AccountHandle,
    pub gateway_token: GatewayToken,
    pub global_market_state: GlobalMarketState,
    pub signing_authority: AccountHandle,
    pub investor_token_account: TokenAccount,
    pub liquidity_pool_token_account: TokenAccount,
    pub lp_token_mint_account: Mint,
    pub investor_lp_token_account: TokenAccount,
    pub credix_pass: CredixPass,
}

/// The constraints a deposit demands: the investor signs and owns a
/// sufficiently funded base-token account of the pool's base mint, the
/// pool's accounts are the market's own, and the investor's pass is an
/// active underwriter pass.
pub open spec fn spec_validate_deposit(ctx: DepositFunds, amount: u64) -> Result<(), ErrorCode> {
    if !ctx.investor.is_signer {
        Err(ErrorCode::UnauthorizedSigner)
    } else if ctx.investor_token_account.owner != ctx.investor.key
        || ctx.investor_token_account.mint != ctx.liquidity_pool_token_account.mint {
        Err(ErrorCode::UnauthorizedSigner)
    } else if ctx.investor_token_account.amount < amount {
        Err(ErrorCode::NotEnoughBaseTokens)
    } else if ctx.liquidity_pool_token_account.mint
        != ctx.global_market_state.liquidity_pool_token_mint_account
        || ctx.liquidity_pool_token_account.owner != ctx.signing_authority.key {
        Err(ErrorCode::UnauthorizedSigner)
    } else if ctx.lp_token_mint_account.key != ctx.global_market_state.lp_token_mint_account {
        Err(ErrorCode::UnauthorizedSigner)
    } else if ctx.investor_lp_token_account.mint != ctx.lp_token_mint_account.key
        || ctx.investor_lp_token_account.owner != ctx.investor.key {
        Err(ErrorCode::UnauthorizedSigner)
    } else if !ctx.credix_pass.active {
        Err(ErrorCode::CredixPassInactive)
    } else if !ctx.credix_pass.is_underwriter {
        Err(ErrorCode::CredixPassInvalid)
    } else {
        Ok(())
    }
}

impl DepositFunds {
    /// Admits or rejects the account set for a deposit of `amount`.
    pub fn validate(&self, amount: u64) -> (r: Result<(), ErrorCode>)
        ensures
            r == spec_validate_deposit(*self, amount),
    {
        if !self.investor.is_signer {
            Err(ErrorCode::UnauthorizedSigner)
        } else if self.investor_token_account.owner != self.investor.key
            || self.investor_token_account.mint != self.liquidity_pool_token_account.mint {
            Err(ErrorCode::UnauthorizedSigner)
        } else if self.investor_token_account.amount < amount {
            Err(ErrorCode::NotEnoughBaseTokens)
        } else if self.liquidity_pool_token_account.mint
            != self.global_market_state.liquidity_pool_token_mint_account
            || self.liquidity_pool_token_account.owner != self.signing_authority.key {
            Err(ErrorCode::UnauthorizedSigner)
        } else if self.lp_token_mint_account.key != self.global_market_state.lp_token_mint_account {
            Err(ErrorCode::UnauthorizedSigner)
        } else if self.investor_lp_token_account.mint != self.lp_token_mint_account.key
            || self.investor_lp_token_account.owner != self.investor.key {
            Err(ErrorCode::UnauthorizedSigner)
        } else if !self.credix_pass.active {
            Err(ErrorCode::CredixPassInactive)
        } else if !self.credix_pass.is_underwriter {
            Err(ErrorCode::CredixPassInvalid)
        } else {
            Ok(())
        }
    }
}

/// Accounts of the pass-creation instruction.
#[derive(Clone, Copy)]
pub struct CreateCredixPass {
    pub owner: AccountHandle,
    pub pass_holder: AccountHandle,
    pub credix_pass: CredixPass,
    pub global_market_state: GlobalMarketState,
}

impl CreateCredixPass {
    /// Pass upkeep demands the market owner's signature.
    pub fn validate(&self) -> (r: Result<(), ErrorCode>)
        ensures
            r == (if self.owner.is_signer {
                Ok::<(), ErrorCode>(())
            } else {
                Err::<(), ErrorCode>(ErrorCode::UnauthorizedSigner)
            }),
    {
        if self.owner.is_signer {
            Ok(())
        } else {
            Err(ErrorCode::UnauthorizedSigner)
        }
    }
}

/// Accounts of the pass-update instruction.
#[derive(Clone, Copy)]
pub struct UpdateCredixPass {
    pub owner: AccountHandle,
    pub pass_holder: AccountHandle,
    pub credix_pass: CredixPass,
    pub global_market_state: GlobalMarketState,
}

impl UpdateCredixPass {
    /// Pass upkeep demands the market owner's signature.
    pub fn validate(&self) -> (r: Result<(), ErrorCode>)
        ensures
            r == (if self.owner.is_signer {
                Ok::<(), ErrorCode>(())
            } else {
                Err::<(), ErrorCode>(ErrorCode::UnauthorizedSigner)
            }),
    {
        if self.owner.is_signer {
            Ok(())
        } else {
            Err(ErrorCode::UnauthorizedSigner)
        }
    }
}

/// Accounts of the freeze and thaw instructions the proxy's side-calls hit.
#[derive(Clone, Copy)]
pub struct FreezeThawLpTokens {
    pub credix_permissioned_pda: AccountHandle,
    pub lp_holder: AccountHandle,
    pub gateway_token: GatewayToken,
    pub credix_pass: CredixPass,
    pub lp_token_account: TokenAccount,
    pub global_market_state: GlobalMarketState,
    pub signing_authority: AccountHandle,
    pub lp_token_mint_account: Mint,
}

/// The constraints freezing or thawing demands: both the proxy's transient
/// signer and the holder sign, and the token account is the holder's
/// account of the market's own pool-share mint, frozen and thawed by the
/// market's signing authority.
pub open spec fn spec_validate_freeze_thaw(ctx: FreezeThawLpTokens) -> Result<(), ErrorCode> {
    if !ctx.credix_permissioned_pda.is_signer || !ctx.lp_holder.is_signer {
        Err(ErrorCode::UnauthorizedSigner)
    } else if ctx.lp_token_account.owner != ctx.lp_holder.key
        || ctx.lp_token_account.mint != ctx.lp_token_mint_account.key {
        Err(ErrorCode::UnauthorizedSigner)
    } else if ctx.lp_token_mint_account.key != ctx.global_market_state.lp_token_mint_account {
        Err(ErrorCode::UnauthorizedSigner)
    } else if ctx.lp_token_mint_account.freeze_authority != ctx.signing_authority.key {
        Err(ErrorCode::UnauthorizedSigner)
    } else {
        Ok(())
    }
}

impl FreezeThawLpTokens {
    /// Admits or rejects the account set, as the runtime would.
    pub fn validate(&self) -> (r: Result<(), ErrorCode>)
        ensures
            r == spec_validate_freeze_thaw(*self),
    {
        if !self.credix_permissioned_pda.is_signer || !self.lp_holder.is_signer {
            Err(ErrorCode::UnauthorizedSigner)
        } else if self.lp_token_account.owner != self.lp_holder.key
            || self.lp_token_account.mint != self.lp_token_mint_account.key {
            Err(ErrorCode::UnauthorizedSigner)
        } else if self.lp_token_mint_account.key
            != self.global_market_state.lp_token_mint_account {
            Err(ErrorCode::UnauthorizedSigner)
        } else if self.lp_token_mint_account.freeze_authority != self.signing_authority.key {
            Err(ErrorCode::UnauthorizedSigner)
        } else {
            Ok(())
        }
    }
}

} // verus!
