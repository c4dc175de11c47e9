//! Persistent state of the liquidity-pool collaborator, as plain values.

use vstd::prelude::*;

use crate::account::Pubkey;

verus! {

/// Per-market configuration of the liquidity pool.
#[derive(Clone, Copy, PartialEq, Eq, Structural, Debug)]
pub struct GlobalMarketState {
    pub gatekeeper_network: Pubkey,
    pub liquidity_pool_token_mint_account: Pubkey,
    pub lp_token_mint_account: Pubkey,
    pub signing_authority_bump: u8,
    pub bump: u8,
}

/// An allow-list record granting a holder capabilities within a market.
#[derive(Clone, Copy, PartialEq, Eq, Structural, Debug)]
pub struct CredixPass {
    pub bump: u8,
    pub is_borrower: bool,
    pub is_underwriter: bool,
    pub active: bool,
}

} // verus!
