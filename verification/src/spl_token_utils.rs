//! Token-custody operations of the liquidity pool, over the modelled
//! custody accounts: idempotent freeze and thaw of pool-share accounts,
//! issuing and burning pool shares, and moving base tokens.  Every
//! quantity computation is checked and fails with the matching error
//! rather than wrapping.

use vstd::prelude::*;

use crate::account::{AccountHandle, Pubkey};
use crate::errors::ErrorCode;
use crate::proxy::SignerSeeds;
use crate::state::GlobalMarketState;
use crate::token::{Mint, TokenAccount};

verus! {

/// What thawing does: nothing when the account is already unfrozen;
/// otherwise the freeze authority must sign, and the flag clears.
pub open spec fn spec_thaw_account(acc: TokenAccount, mint: Mint, authority: Pubkey) -> Result<
    TokenAccount,
    ErrorCode,
> {
    if !acc.frozen {
        Ok(acc)
    } else if mint.freeze_authority != authority {
        Err(ErrorCode::UnauthorizedSigner)
    } else {
        Ok(TokenAccount { frozen: false, ..acc })
    }
}

/// What freezing does: nothing when the account is already frozen;
/// otherwise the freeze authority must sign, and the flag sets.
pub open spec fn spec_freeze_account(acc: TokenAccount, mint: Mint, authority: Pubkey) -> Result<
    TokenAccount,
    ErrorCode,
> {
    if acc.frozen {
        Ok(acc)
    } else if mint.freeze_authority != authority {
        Err(ErrorCode::UnauthorizedSigner)
    } else {
        Ok(TokenAccount { frozen: true, ..acc })
    }
}

/// Thaws a pool-share account so it can be operated on; a no-op when it is
/// not frozen.  The market state supplies the signer seeds at the real
/// custody boundary and plays no further part here.
pub fn thaw_lp_token_account(
    token_account: &mut TokenAccount,
    mint_account: &Mint,
    authority_account_info: &AccountHandle,
    global_market_state_account: &GlobalMarketState,
) -> (r: Result<(), ErrorCode>)
    ensures
        match r {
            Ok(()) => spec_thaw_account(*old(token_account), *mint_account, authority_account_info.key)
                == Ok::<TokenAccount, ErrorCode>(*final(token_account)),
            Err(e) => spec_thaw_account(*old(token_account), *mint_account, authority_account_info.key)
                == Err::<TokenAccount, ErrorCode>(e) && *final(token_account) == *old(token_account),
        },
{
    if !token_account.is_frozen() {
        return Ok(());
    }
    if mint_account.freeze_authority != authority_account_info.key {
        return Err(ErrorCode::UnauthorizedSigner);
    }
    token_account.frozen = false;
    Ok(())
}

/// Freezes a pool-share account; a no-op when it is already frozen.
pub fn freeze_lp_token_account(
    token_account: &mut TokenAccount,
    lp_token_mint_account: &Mint,
    authority_account_info: &AccountHandle,
    global_market_state_account: &GlobalMarketState,
) -> (r: Result<(), ErrorCode>)
    ensures
        match r {
            Ok(()) => spec_freeze_account(
                *old(token_account),
                *lp_token_mint_account,
                authority_account_info.key,
            ) == Ok::<TokenAccount, ErrorCode>(*final(token_account)),
            Err(e) => spec_freeze_account(
                *old(token_account),
                *lp_token_mint_account,
                authority_account_info.key,
            ) == Err::<TokenAccount, ErrorCode>(e) && *final(token_account) == *old(token_account),
        },
{
    if token_account.is_frozen() {
        return Ok(());
    }
    if lp_token_mint_account.freeze_authority != authority_account_info.key {
        return Err(ErrorCode::UnauthorizedSigner);
    }
    token_account.frozen = true;
    Ok(())
}

/// What issuing `amount` pool shares into `to` does: thaw, mint under the
/// mint authority with checked arithmetic, then re-freeze.
pub open spec fn spec_mint_lp_tokens(mint: Mint, to: TokenAccount, authority: Pubkey, amount: u64)
    -> Result<(Mint, TokenAccount), ErrorCode> {
    match spec_thaw_account(to, mint, authority) {
        Err(e) => Err(e),
        Ok(to1) => {
            if mint.authority != authority {
                Err(ErrorCode::UnauthorizedSigner)
            } else if to1.amount + amount > u64::MAX {
                Err(ErrorCode::Overflow)
            } else if mint.supply + amount > u64::MAX {
                Err(ErrorCode::Overflow)
            } else {
                let mint2 = Mint { supply: (mint.supply + amount) as u64, ..mint };
                let to2 = TokenAccount { amount: (to1.amount + amount) as u64, ..to1 };
                match spec_freeze_account(to2, mint2, authority) {
                    Err(e) => Err(e),
                    Ok(to3) => Ok((mint2, to3)),
                }
            }
        },
    }
}

/// Issues pool shares to a holder: the account is thawed, minted into, and
/// re-frozen, so it ends the operation frozen.
pub fn mint_lp_tokens(
    lp_token_mint_account: &mut Mint,
    to_account: &mut TokenAccount,
    signing_authority_account_info: &AccountHandle,
    global_market_state_account: &GlobalMarketState,
    amount: u64,
) -> (r: Result<(), ErrorCode>)
    ensures
        match r {
            Ok(()) => spec_mint_lp_tokens(
                *old(lp_token_mint_account),
                *old(to_account),
                signing_authority_account_info.key,
                amount,
            ) == Ok::<(Mint, TokenAccount), ErrorCode>((*final(lp_token_mint_account), *final(to_account))),
            Err(e) => spec_mint_lp_tokens(
                *old(lp_token_mint_account),
                *old(to_account),
                signing_authority_account_info.key,
                amount,
            ) == Err::<(Mint, TokenAccount), ErrorCode>(e)
                && *final(lp_token_mint_account) == *old(lp_token_mint_account)
                && *final(to_account) == *old(to_account),
        },
{
    let mut to_local = *to_account;
    let mut mint_local = *lp_token_mint_account;
    let r = thaw_lp_token_account(
        &mut to_local,
        &mint_local,
        signing_authority_account_info,
        global_market_state_account,
    );
    if let Err(e) = r {
        return Err(e);
    }
    if mint_local.authority != signing_authority_account_info.key {
        return Err(ErrorCode::UnauthorizedSigner);
    }
    if amount > u64::MAX - to_local.amount {
        return Err(ErrorCode::Overflow);
    }
    if amount > u64::MAX - mint_local.supply {
        return Err(ErrorCode::Overflow);
    }
    mint_local.supply = mint_local.supply + amount;
    to_local.amount = to_local.amount + amount;
    let r2 = freeze_lp_token_account(
        &mut to_local,
        &mint_local,
        signing_authority_account_info,
        global_market_state_account,
    );
    if let Err(e) = r2 {
        return Err(e);
    }
    *lp_token_mint_account = mint_local;
    *to_account = to_local;
    Ok(())
}

/// What burning `amount` pool shares from `token` does: thaw, burn under
/// the holder's own signature with checked arithmetic, then re-freeze.
pub open spec fn spec_burn_lp_tokens(
    mint: Mint,
    token: TokenAccount,
    owner: AccountHandle,
    authority: Pubkey,
    amount: u64,
) -> Result<(Mint, TokenAccount), ErrorCode> {
    match spec_thaw_account(token, mint, authority) {
        Err(e) => Err(e),
        Ok(t1) => {
            if owner.key != token.owner || !owner.is_signer {
                Err(ErrorCode::UnauthorizedSigner)
            } else if t1.amount < amount {
                Err(ErrorCode::NotEnoughLPTokens)
            } else if mint.supply < amount {
                Err(ErrorCode::Underflow)
            } else {
                let mint2 = Mint { supply: (mint.supply - amount) as u64, ..mint };
                let t2 = TokenAccount { amount: (t1.amount - amount) as u64, ..t1 };
                match spec_freeze_account(t2, mint2, authority) {
                    Err(e) => Err(e),
                    Ok(t3) => Ok((mint2, t3)),
                }
            }
        },
    }
}

/// Burns pool shares held by their owner: the account is thawed, burned
/// from, and re-frozen, so it ends the operation frozen.
pub fn burn_lp_tokens(
    token_account: &mut TokenAccount,
    owner_account: &AccountHandle,
    mint_account: &mut Mint,
    authority_account_info: &AccountHandle,
    global_market_state_account: &GlobalMarketState,
    amount: u64,
) -> (r: Result<(), ErrorCode>)
    ensures
        match r {
            Ok(()) => spec_burn_lp_tokens(
                *old(mint_account),
                *old(token_account),
                *owner_account,
                authority_account_info.key,
                amount,
            ) == Ok::<(Mint, TokenAccount), ErrorCode>((*final(mint_account), *final(token_account))),
            Err(e) => spec_burn_lp_tokens(
                *old(mint_account),
                *old(token_account),
                *owner_account,
                authority_account_info.key,
                amount,
            ) == Err::<(Mint, TokenAccount), ErrorCode>(e)
                && *final(mint_account) == *old(mint_account)
                && *final(token_account) == *old(token_account),
        },
{
    let mut token_local = *token_account;
    let mut mint_local = *mint_account;
    let r = thaw_lp_token_account(
        &mut token_local,
        &mint_local,
        authority_account_info,
        global_market_state_account,
    );
    if let Err(e) = r {
        return Err(e);
    }
    if owner_account.key != token_local.owner || !owner_account.is_signer {
        return Err(ErrorCode::UnauthorizedSigner);
    }
    if token_local.amount < amount {
        return Err(ErrorCode::NotEnoughLPTokens);
    }
    if mint_local.supply < amount {
        return Err(ErrorCode::Underflow);
    }
    mint_local.supply = mint_local.supply - amount;
    token_local.amount = token_local.amount - amount;
    let r2 = freeze_lp_token_account(
        &mut token_local,
        &mint_local,
        authority_account_info,
        global_market_state_account,
    );
    if let Err(e) = r2 {
        return Err(e);
    }
    *mint_account = mint_local;
    *token_account = token_local;
    Ok(())
}

/// What a base-token transfer does: the sender's owner signs, the funds
/// must cover the amount, and the receiving balance must not overflow.
pub open spec fn spec_transfer_base(
    from: TokenAccount,
    to: TokenAccount,
    authority: AccountHandle,
    amount: u64,
) -> Result<(TokenAccount, TokenAccount), ErrorCode> {
    if authority.key != from.owner || !authority.is_signer {
        Err(ErrorCode::UnauthorizedSigner)
    } else if from.amount < amount {
        Err(ErrorCode::NotEnoughBaseTokens)
    } else if to.amount + amount > u64::MAX {
        Err(ErrorCode::Overflow)
    } else {
        Ok((
            TokenAccount { amount: (from.amount - amount) as u64, ..from },
            TokenAccount { amount: (to.amount + amount) as u64, ..to },
        ))
    }
}

/// Moves base tokens under the sender's own signature.
pub fn transfer_base(
    amount: u64,
    from: &mut TokenAccount,
    to: &mut TokenAccount,
    authority: &AccountHandle,
) -> (r: Result<(), ErrorCode>)
    ensures
        match r {
            Ok(()) => spec_transfer_base(*old(from), *old(to), *authority, amount)
                == Ok::<(TokenAccount, TokenAccount), ErrorCode>((*final(from), *final(to))),
            Err(e) => spec_transfer_base(*old(from), *old(to), *authority, amount)
                == Err::<(TokenAccount, TokenAccount), ErrorCode>(e)
                && *final(from) == *old(from) && *final(to) == *old(to),
        },
{
    if authority.key != from.owner || !authority.is_signer {
        return Err(ErrorCode::UnauthorizedSigner);
    }
    if from.amount < amount {
        return Err(ErrorCode::NotEnoughBaseTokens);
    }
    if amount > u64::MAX - to.amount {
        return Err(ErrorCode::Overflow);
    }
    from.amount = from.amount - amount;
    to.amount = to.amount + amount;
    Ok(())
}

/// What a transfer signed by a program-derived authority does: the named
/// authority must own the sending account; the signature itself is the
/// runtime's check of the seed sets.
pub open spec fn spec_transfer_base_with_signer(
    from: TokenAccount,
    to: TokenAccount,
    authority: AccountHandle,
    amount: u64,
) -> Result<(TokenAccount, TokenAccount), ErrorCode> {
    if authority.key != from.owner {
        Err(ErrorCode::UnauthorizedSigner)
    } else if from.amount < amount {
        Err(ErrorCode::NotEnoughBaseTokens)
    } else if to.amount + amount > u64::MAX {
        Err(ErrorCode::Overflow)
    } else {
        Ok((
            TokenAccount { amount: (from.amount - amount) as u64, ..from },
            TokenAccount { amount: (to.amount + amount) as u64, ..to },
        ))
    }
}

/// Moves base tokens under a program-derived signature carried as seeds.
pub fn transfer_base_with_signer(
    amount: u64,
    from: &mut TokenAccount,
    to: &mut TokenAccount,
    authority: &AccountHandle,
    seeds: &Vec<SignerSeeds>,
) -> (r: Result<(), ErrorCode>)
    ensures
        match r {
            Ok(()) => spec_transfer_base_with_signer(*old(from), *old(to), *authority, amount)
                == Ok::<(TokenAccount, TokenAccount), ErrorCode>((*final(from), *final(to))),
            Err(e) => spec_transfer_base_with_signer(*old(from), *old(to), *authority, amount)
                == Err::<(TokenAccount, TokenAccount), ErrorCode>(e)
                && *final(from) == *old(from) && *final(to) == *old(to),
        },
{
    if authority.key != from.owner {
        return Err(ErrorCode::UnauthorizedSigner);
    }
    if from.amount < amount {
        return Err(ErrorCode::NotEnoughBaseTokens);
    }
    if amount > u64::MAX - to.amount {
        return Err(ErrorCode::Overflow);
    }
    from.amount = from.amount - amount;
    to.amount = to.amount + amount;
    Ok(())
}

} // verus!
