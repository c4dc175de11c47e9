use credix_permissioned_market::account::{AccountHandle, Pubkey};
use credix_permissioned_market::context::{
    CreateCredixPass, DepositFunds, FreezeThawLpTokens, InitializeMarket, UpdateCredixPass,
};
use credix_permissioned_market::credix;
use credix_permissioned_market::errors::ErrorCode;
use credix_permissioned_market::spl_token_utils::{
    burn_lp_tokens, freeze_lp_token_account, mint_lp_tokens, thaw_lp_token_account, transfer_base,
    transfer_base_with_signer,
};
use credix_permissioned_market::state::{CredixPass, GlobalMarketState};
use credix_permissioned_market::token::{Mint, TokenAccount};
use credix_permissioned_market::util::{civic_check, GatewayError, GatewayToken};

fn pk(v: u64) -> Pubkey {
    Pubkey { value: v }
}

fn signer(v: u64) -> AccountHandle {
    AccountHandle { key: pk(v), is_signer: true, is_writable: true }
}

fn plain(v: u64) -> AccountHandle {
    AccountHandle { key: pk(v), is_signer: false, is_writable: false }
}

fn market_state() -> GlobalMarketState {
    GlobalMarketState {
        gatekeeper_network: pk(50),
        liquidity_pool_token_mint_account: pk(60),
        lp_token_mint_account: pk(5),
        signing_authority_bump: 7,
        bump: 3,
    }
}

fn lp_mint() -> Mint {
    Mint { key: pk(5), supply: 500, decimals: 6, authority: pk(4), freeze_authority: pk(4) }
}

fn good_pass() -> CredixPass {
    CredixPass { bump: 1, is_borrower: false, is_underwriter: true, active: true }
}

fn good_gateway() -> GatewayToken {
    GatewayToken { holder: pk(1), gatekeeper_network: pk(50), active: true }
}

fn deposit_ctx() -> DepositFunds {
    DepositFunds {
        investor: signer(1),
        gateway_token: good_gateway(),
        global_market_state: market_state(),
        signing_authority: plain(4),
        investor_token_account: TokenAccount {
            key: pk(70),
            owner: pk(1),
            mint: pk(60),
            amount: 100,
            frozen: false,
        },
        liquidity_pool_token_account: TokenAccount {
            key: pk(71),
            owner: pk(4),
            mint: pk(60),
            amount: 500,
            frozen: false,
        },
        lp_token_mint_account: lp_mint(),
        investor_lp_token_account: TokenAccount {
            key: pk(72),
            owner: pk(1),
            mint: pk(5),
            amount: 0,
            frozen: true,
        },
        credix_pass: good_pass(),
    }
}

fn freeze_thaw_ctx(frozen: bool) -> FreezeThawLpTokens {
    FreezeThawLpTokens {
        credix_permissioned_pda: signer(3),
        lp_holder: signer(1),
        gateway_token: good_gateway(),
        credix_pass: good_pass(),
        lp_token_account: TokenAccount {
            key: pk(2),
            owner: pk(1),
            mint: pk(5),
            amount: 10,
            frozen,
        },
        global_market_state: market_state(),
        signing_authority: plain(4),
        lp_token_mint_account: lp_mint(),
    }
}

#[test]
fn civic_check_accepts_a_matching_active_credential() {
    assert_eq!(civic_check(pk(1), &good_gateway(), pk(50)), Ok(()));
}

#[test]
fn civic_check_rejects_a_credential_issued_to_someone_else() {
    assert_eq!(civic_check(pk(2), &good_gateway(), pk(50)), Err(GatewayError::InvalidOwner));
}

#[test]
fn civic_check_rejects_a_wrong_gatekeeper_network() {
    assert_eq!(civic_check(pk(1), &good_gateway(), pk(51)), Err(GatewayError::IncorrectGatekeeper));
}

#[test]
fn civic_check_rejects_a_revoked_credential() {
    let token = GatewayToken { active: false, ..good_gateway() };
    assert_eq!(civic_check(pk(1), &token, pk(50)), Err(GatewayError::TokenRevoked));
}

#[test]
fn thaw_is_a_no_op_on_an_unfrozen_account() {
    let mut acc = TokenAccount { key: pk(2), owner: pk(1), mint: pk(5), amount: 10, frozen: false };
    let before = acc;
    assert_eq!(thaw_lp_token_account(&mut acc, &lp_mint(), &plain(4), &market_state()), Ok(()));
    assert_eq!(acc, before);
}

#[test]
fn thaw_clears_the_flag_under_the_freeze_authority() {
    let mut acc = TokenAccount { key: pk(2), owner: pk(1), mint: pk(5), amount: 10, frozen: true };
    assert_eq!(thaw_lp_token_account(&mut acc, &lp_mint(), &plain(4), &market_state()), Ok(()));
    assert!(!acc.frozen);
}

#[test]
fn thaw_rejects_a_stranger_as_freeze_authority() {
    let mut acc = TokenAccount { key: pk(2), owner: pk(1), mint: pk(5), amount: 10, frozen: true };
    assert_eq!(
        thaw_lp_token_account(&mut acc, &lp_mint(), &plain(9), &market_state()),
        Err(ErrorCode::UnauthorizedSigner)
    );
    assert!(acc.frozen);
}

#[test]
fn freeze_is_a_no_op_on_a_frozen_account() {
    let mut acc = TokenAccount { key: pk(2), owner: pk(1), mint: pk(5), amount: 10, frozen: true };
    let before = acc;
    assert_eq!(freeze_lp_token_account(&mut acc, &lp_mint(), &plain(4), &market_state()), Ok(()));
    assert_eq!(acc, before);
}

#[test]
fn freeze_sets_the_flag_under_the_freeze_authority() {
    let mut acc = TokenAccount { key: pk(2), owner: pk(1), mint: pk(5), amount: 10, frozen: false };
    assert_eq!(freeze_lp_token_account(&mut acc, &lp_mint(), &plain(4), &market_state()), Ok(()));
    assert!(acc.frozen);
}

#[test]
fn minting_issues_shares_and_leaves_the_account_frozen() {
    let mut mint = lp_mint();
    let mut acc = TokenAccount { key: pk(72), owner: pk(1), mint: pk(5), amount: 3, frozen: true };
    assert_eq!(mint_lp_tokens(&mut mint, &mut acc, &plain(4), &market_state(), 40), Ok(()));
    assert_eq!(acc.amount, 43);
    assert_eq!(mint.supply, 540);
    assert!(acc.frozen);
}

#[test]
fn minting_rejects_a_stranger_as_mint_authority() {
    let mut mint = Mint { authority: pk(9), ..lp_mint() };
    let mut acc = TokenAccount { key: pk(72), owner: pk(1), mint: pk(5), amount: 3, frozen: false };
    assert_eq!(
        mint_lp_tokens(&mut mint, &mut acc, &plain(4), &market_state(), 40),
        Err(ErrorCode::UnauthorizedSigner)
    );
    assert_eq!(acc.amount, 3);
}

#[test]
fn minting_over_the_balance_limit_is_an_overflow() {
    let mut mint = lp_mint();
    let mut acc = TokenAccount {
        key: pk(72),
        owner: pk(1),
        mint: pk(5),
        amount: u64::MAX - 5,
        frozen: false,
    };
    assert_eq!(
        mint_lp_tokens(&mut mint, &mut acc, &plain(4), &market_state(), 40),
        Err(ErrorCode::Overflow)
    );
    assert_eq!(acc.amount, u64::MAX - 5);
    assert_eq!(mint.supply, 500);
}

#[test]
fn burning_redeems_shares_and_leaves_the_account_frozen() {
    let mut mint = lp_mint();
    let mut acc = TokenAccount { key: pk(72), owner: pk(1), mint: pk(5), amount: 10, frozen: true };
    assert_eq!(
        burn_lp_tokens(&mut acc, &signer(1), &mut mint, &plain(4), &market_state(), 4),
        Ok(())
    );
    assert_eq!(acc.amount, 6);
    assert_eq!(mint.supply, 496);
    assert!(acc.frozen);
}

#[test]
fn burning_more_than_held_fails() {
    let mut mint = lp_mint();
    let mut acc = TokenAccount { key: pk(72), owner: pk(1), mint: pk(5), amount: 3, frozen: false };
    assert_eq!(
        burn_lp_tokens(&mut acc, &signer(1), &mut mint, &plain(4), &market_state(), 4),
        Err(ErrorCode::NotEnoughLPTokens)
    );
    assert_eq!(acc.amount, 3);
}

#[test]
fn burning_more_than_the_supply_is_an_underflow() {
    let mut mint = Mint { supply: 2, ..lp_mint() };
    let mut acc = TokenAccount { key: pk(72), owner: pk(1), mint: pk(5), amount: 10, frozen: false };
    assert_eq!(
        burn_lp_tokens(&mut acc, &signer(1), &mut mint, &plain(4), &market_state(), 4),
        Err(ErrorCode::Underflow)
    );
    assert_eq!(mint.supply, 2);
}

#[test]
fn transfer_moves_exactly_the_amount() {
    let mut from = TokenAccount { key: pk(70), owner: pk(1), mint: pk(60), amount: 100, frozen: false };
    let mut to = TokenAccount { key: pk(71), owner: pk(4), mint: pk(60), amount: 500, frozen: false };
    assert_eq!(transfer_base(40, &mut from, &mut to, &signer(1)), Ok(()));
    assert_eq!(from.amount, 60);
    assert_eq!(to.amount, 540);
}

#[test]
fn transfer_demands_the_owner_signature() {
    let mut from = TokenAccount { key: pk(70), owner: pk(1), mint: pk(60), amount: 100, frozen: false };
    let mut to = TokenAccount { key: pk(71), owner: pk(4), mint: pk(60), amount: 500, frozen: false };
    assert_eq!(
        transfer_base(40, &mut from, &mut to, &signer(2)),
        Err(ErrorCode::UnauthorizedSigner)
    );
    assert_eq!(transfer_base(40, &mut from, &mut to, &plain(1)), Err(ErrorCode::UnauthorizedSigner));
    assert_eq!(from.amount, 100);
}

#[test]
fn transfer_rejects_insufficient_funds() {
    let mut from = TokenAccount { key: pk(70), owner: pk(1), mint: pk(60), amount: 30, frozen: false };
    let mut to = TokenAccount { key: pk(71), owner: pk(4), mint: pk(60), amount: 500, frozen: false };
    assert_eq!(
        transfer_base(40, &mut from, &mut to, &signer(1)),
        Err(ErrorCode::NotEnoughBaseTokens)
    );
}

#[test]
fn transfer_rejects_a_receiving_overflow() {
    let mut from = TokenAccount { key: pk(70), owner: pk(1), mint: pk(60), amount: 100, frozen: false };
    let mut to = TokenAccount {
        key: pk(71),
        owner: pk(4),
        mint: pk(60),
        amount: u64::MAX - 10,
        frozen: false,
    };
    assert_eq!(transfer_base(40, &mut from, &mut to, &signer(1)), Err(ErrorCode::Overflow));
    assert_eq!(from.amount, 100);
    assert_eq!(to.amount, u64::MAX - 10);
}

#[test]
fn transfer_with_signer_seeds_moves_the_amount() {
    let mut from = TokenAccount { key: pk(71), owner: pk(4), mint: pk(60), amount: 500, frozen: false };
    let mut to = TokenAccount { key: pk(70), owner: pk(1), mint: pk(60), amount: 0, frozen: false };
    assert_eq!(
        transfer_base_with_signer(25, &mut from, &mut to, &plain(4), &Vec::new()),
        Ok(())
    );
    assert_eq!(from.amount, 475);
    assert_eq!(to.amount, 25);
}

#[test]
fn initialize_market_records_the_configuration() {
    let mut ctx = InitializeMarket {
        owner: signer(30),
        gatekeeper_network: plain(50),
        global_market_state: GlobalMarketState {
            gatekeeper_network: pk(0),
            liquidity_pool_token_mint_account: pk(0),
            lp_token_mint_account: pk(0),
            signing_authority_bump: 0,
            bump: 0,
        },
        signing_authority: plain(4),
        liquidity_pool_token_account: TokenAccount {
            key: pk(71),
            owner: pk(4),
            mint: pk(60),
            amount: 0,
            frozen: false,
        },
        lp_token_mint_account: lp_mint(),
        base_mint_account: Mint {
            key: pk(60),
            supply: 0,
            decimals: 6,
            authority: pk(99),
            freeze_authority: pk(99),
        },
    };
    assert_eq!(credix::initialize_market(&mut ctx, 7, 3), Ok(()));
    assert_eq!(ctx.global_market_state, market_state());
}

#[test]
fn initialize_market_demands_the_owner_signature() {
    let mut ctx = InitializeMarket {
        owner: plain(30),
        gatekeeper_network: plain(50),
        global_market_state: market_state(),
        signing_authority: plain(4),
        liquidity_pool_token_account: TokenAccount {
            key: pk(71),
            owner: pk(4),
            mint: pk(60),
            amount: 0,
            frozen: false,
        },
        lp_token_mint_account: lp_mint(),
        base_mint_account: Mint {
            key: pk(60),
            supply: 0,
            decimals: 6,
            authority: pk(99),
            freeze_authority: pk(99),
        },
    };
    assert_eq!(credix::initialize_market(&mut ctx, 7, 3), Err(ErrorCode::UnauthorizedSigner));
}

#[test]
fn deposit_moves_base_tokens_and_issues_frozen_shares() {
    let mut ctx = deposit_ctx();
    assert_eq!(credix::deposit_funds(&mut ctx, 40), Ok(()));
    assert_eq!(ctx.investor_token_account.amount, 60);
    assert_eq!(ctx.liquidity_pool_token_account.amount, 540);
    assert_eq!(ctx.investor_lp_token_account.amount, 40);
    assert!(ctx.investor_lp_token_account.frozen);
    assert_eq!(ctx.lp_token_mint_account.supply, 540);
}

#[test]
fn deposit_rejects_an_inactive_pass() {
    let mut ctx = deposit_ctx();
    ctx.credix_pass = CredixPass { active: false, ..good_pass() };
    let before = ctx;
    assert_eq!(credix::deposit_funds(&mut ctx, 40), Err(ErrorCode::CredixPassInactive));
    assert_eq!(ctx.investor_token_account, before.investor_token_account);
}

#[test]
fn deposit_rejects_a_pass_without_the_underwriter_capability() {
    let mut ctx = deposit_ctx();
    ctx.credix_pass = CredixPass { is_underwriter: false, ..good_pass() };
    assert_eq!(credix::deposit_funds(&mut ctx, 40), Err(ErrorCode::CredixPassInvalid));
}

#[test]
fn deposit_rejects_insufficient_base_tokens() {
    let mut ctx = deposit_ctx();
    assert_eq!(credix::deposit_funds(&mut ctx, 101), Err(ErrorCode::NotEnoughBaseTokens));
}

#[test]
fn deposit_rejects_a_failing_credential() {
    let mut ctx = deposit_ctx();
    ctx.gateway_token = GatewayToken { active: false, ..good_gateway() };
    assert_eq!(credix::deposit_funds(&mut ctx, 40), Err(ErrorCode::UnauthorizedSigner));
    assert_eq!(ctx.investor_token_account.amount, 100);
}

#[test]
fn create_credix_pass_starts_active_with_the_bump() {
    let mut ctx = CreateCredixPass {
        owner: signer(30),
        pass_holder: plain(1),
        credix_pass: CredixPass { bump: 0, is_borrower: false, is_underwriter: false, active: false },
        global_market_state: market_state(),
    };
    assert_eq!(credix::create_credix_pass(&mut ctx, 9), Ok(()));
    assert!(ctx.credix_pass.active);
    assert_eq!(ctx.credix_pass.bump, 9);
}

#[test]
fn update_credix_pass_toggles_activity() {
    let mut ctx = UpdateCredixPass {
        owner: signer(30),
        pass_holder: plain(1),
        credix_pass: good_pass(),
        global_market_state: market_state(),
    };
    assert_eq!(credix::update_credix_pass(&mut ctx, false), Ok(()));
    assert!(!ctx.credix_pass.active);
    assert_eq!(credix::update_credix_pass(&mut ctx, true), Ok(()));
    assert!(ctx.credix_pass.active);
}

#[test]
fn pass_upkeep_demands_the_owner_signature() {
    let mut ctx = CreateCredixPass {
        owner: plain(30),
        pass_holder: plain(1),
        credix_pass: good_pass(),
        global_market_state: market_state(),
    };
    assert_eq!(credix::create_credix_pass(&mut ctx, 9), Err(ErrorCode::UnauthorizedSigner));
}

#[test]
fn freeze_handler_freezes_after_the_credential_check() {
    let mut ctx = freeze_thaw_ctx(false);
    assert_eq!(credix::freeze_lp_tokens(&mut ctx), Ok(()));
    assert!(ctx.lp_token_account.frozen);
}

#[test]
fn thaw_handler_thaws_after_the_credential_check() {
    let mut ctx = freeze_thaw_ctx(true);
    assert_eq!(credix::thaw_lp_tokens(&mut ctx), Ok(()));
    assert!(!ctx.lp_token_account.frozen);
}

#[test]
fn freeze_handler_rejects_a_missing_transient_signer() {
    let mut ctx = freeze_thaw_ctx(false);
    ctx.credix_permissioned_pda = plain(3);
    assert_eq!(credix::freeze_lp_tokens(&mut ctx), Err(ErrorCode::UnauthorizedSigner));
    assert!(!ctx.lp_token_account.frozen);
}

#[test]
fn thaw_handler_rejects_a_failing_credential() {
    let mut ctx = freeze_thaw_ctx(true);
    ctx.gateway_token = GatewayToken { holder: pk(2), ..good_gateway() };
    assert_eq!(credix::thaw_lp_tokens(&mut ctx), Err(ErrorCode::UnauthorizedSigner));
    assert!(ctx.lp_token_account.frozen);
}
