//! The token-custody collaborator's account types, as plain values.  Only
//! what the proxy's logic reads and changes is modelled: balances, the
//! freeze flag, and the authorities that guard them.

use vstd::prelude::*;

use crate::account::Pubkey;

verus! {

/// A token account: a holder's balance of one mint, with its freeze flag.
#[derive(Clone, Copy, PartialEq, Eq, Structural, Debug)]
pub struct TokenAccount {
    pub key: Pubkey,
    pub owner: Pubkey,
    pub mint: Pubkey,
    pub amount: u64,
    pub frozen: bool,
}

/// A mint: the issuing record of one token kind, with the authorities that
/// may issue against it and freeze its accounts.
#[derive(Clone, Copy, PartialEq, Eq, Structural, Debug)]
pub struct Mint {
    pub key: Pubkey,
    pub supply: u64,
    pub decimals: u8,
    pub authority: Pubkey,
    pub freeze_authority: Pubkey,
}

impl TokenAccount {
    /// Whether the account is frozen, mirroring the custody service's query.
    pub fn is_frozen(&self) -> (r: bool)
        ensures
            r == self.frozen,
    {
        self.frozen
    }
}

} // verus!
