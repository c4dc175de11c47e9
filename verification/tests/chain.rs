use credix_permissioned_market::account::{AccountHandle, Pubkey};
use credix_permissioned_market::errors::ProxyError;
use credix_permissioned_market::instruction::DexInstruction;
use credix_permissioned_market::middleware::{
    CredentialCheck, CredixPermissionedMarket, Middleware, OpenOrdersPda, ReferralFees,
    FREEZE_IX_TAG, THAW_IX_TAG,
};
use credix_permissioned_market::proxy::{header_phase, Context, MarketProxy, SeedTag, SignerSeeds};

fn pk(v: u64) -> Pubkey {
    Pubkey { value: v }
}

fn handle(v: u64) -> AccountHandle {
    AccountHandle { key: pk(v), is_signer: false, is_writable: false }
}

fn accounts(n: u64) -> Vec<AccountHandle> {
    let mut v = Vec::new();
    let mut i: u64 = 0;
    while i < n {
        v.push(handle(i + 1));
        i += 1;
    }
    v
}

fn standard_chain() -> Vec<Middleware> {
    vec![
        Middleware::Credix(CredixPermissionedMarket {
            signing_authority_bump: 0,
            gate: CredentialCheck::Skip,
        }),
        Middleware::OpenOrders(OpenOrdersPda::new()),
        Middleware::Referral(ReferralFees::new(pk(0xEBB1))),
    ]
}

#[test]
fn header_phase_peels_each_declared_width_in_registration_order() {
    let mut mws = standard_chain();
    let data = vec![5u8, 6, 10, 0];
    let r = header_phase(&mut mws, &data);
    assert_eq!(r, Ok(2));
    match &mws[0] {
        Middleware::Credix(m) => assert_eq!(m.signing_authority_bump, 5),
        _ => panic!("registration order changed"),
    }
    match &mws[1] {
        Middleware::OpenOrders(m) => assert_eq!(m.bump, 6),
        _ => panic!("registration order changed"),
    }
    match &mws[2] {
        Middleware::Referral(m) => assert_eq!(m.referral, pk(0xEBB1)),
        _ => panic!("registration order changed"),
    }
}

#[test]
fn header_phase_rejects_cumulative_consumption_beyond_payload() {
    let mut mws = standard_chain();
    let r = header_phase(&mut mws, &vec![5u8]);
    assert_eq!(r, Err(ProxyError::MalformedInstruction));
}

#[test]
fn order_affecting_dispatch_removes_exactly_the_declared_account_width() {
    let mw = Middleware::Credix(CredixPermissionedMarket {
        signing_authority_bump: 7,
        gate: CredentialCheck::Skip,
    });
    let mut ctx = Context::new(pk(100), accounts(16));
    assert_eq!(ctx.remaining_len(), 16);
    let r = mw.run_opcode(&DexInstruction::SettleFunds, &mut ctx);
    assert_eq!(r, Ok(()));
    assert_eq!(ctx.remaining_len(), 3);
    assert_eq!(ctx.pre_instructions.len(), 1);
    assert_eq!(ctx.post_instructions.len(), 1);
    assert_eq!(ctx.seeds.len(), 2);
    // The side-calls target the pool program (account 8) and mark the
    // proxy's transient signer.
    assert_eq!(ctx.pre_instructions[0].program_id, pk(9));
    assert_eq!(ctx.pre_instructions[0].data, vec![THAW_IX_TAG]);
    assert_eq!(ctx.post_instructions[0].data, vec![FREEZE_IX_TAG]);
    assert_eq!(ctx.pre_instructions[0].accounts.len(), 12);
    assert!(ctx.pre_instructions[0].accounts[2].is_signer);
    assert_eq!(ctx.pre_instructions[0].accounts[2].key, pk(3));
}

#[test]
fn non_order_affecting_dispatch_removes_no_accounts() {
    let mw = Middleware::Credix(CredixPermissionedMarket {
        signing_authority_bump: 7,
        gate: CredentialCheck::Skip,
    });
    let mut ctx = Context::new(pk(100), accounts(16));
    let r = mw.run_opcode(&DexInstruction::Prune { limit: 4 }, &mut ctx);
    assert_eq!(r, Ok(()));
    assert_eq!(ctx.remaining_len(), 16);
    assert_eq!(ctx.pre_instructions.len(), 0);
    assert_eq!(ctx.post_instructions.len(), 0);
}

#[test]
fn too_few_accounts_fail_before_anything_is_queued() {
    let mw = Middleware::Credix(CredixPermissionedMarket {
        signing_authority_bump: 7,
        gate: CredentialCheck::Skip,
    });
    let mut ctx = Context::new(pk(100), accounts(12));
    let r = mw.run_opcode(&DexInstruction::SettleFunds, &mut ctx);
    assert_eq!(r, Err(ProxyError::MissingRequiredAccounts));
    assert_eq!(ctx.remaining_len(), 12);
    assert_eq!(ctx.pre_instructions.len(), 0);
    assert_eq!(ctx.post_instructions.len(), 0);
    assert_eq!(ctx.seeds.len(), 0);
}

#[test]
fn gate_failure_queues_nothing() {
    let mw = Middleware::Credix(CredixPermissionedMarket {
        signing_authority_bump: 7,
        gate: CredentialCheck::Require(None),
    });
    let mut ctx = Context::new(pk(100), accounts(16));
    let r = mw.run_opcode(&DexInstruction::SettleFunds, &mut ctx);
    assert_eq!(r, Err(ProxyError::CredentialRejected));
    assert_eq!(ctx.pre_instructions.len(), 0);
    assert_eq!(ctx.post_instructions.len(), 0);
}

#[test]
fn fallback_hooks_answer_in_registration_order() {
    let mut ctx = Context::new(pk(100), accounts(3));
    let credix = Middleware::Credix(CredixPermissionedMarket {
        signing_authority_bump: 0,
        gate: CredentialCheck::Skip,
    });
    assert_eq!(credix.fallback(&mut ctx), Err(ProxyError::InvalidInstructionData));
    let oo = Middleware::OpenOrders(OpenOrdersPda::new());
    assert_eq!(oo.fallback(&mut ctx), Ok(()));
    let referral = Middleware::Referral(ReferralFees::new(pk(1)));
    assert_eq!(referral.fallback(&mut ctx), Ok(()));
}

#[test]
fn account_slicing_moves_a_cursor_over_an_immutable_backing() {
    let mut ctx = Context::new(pk(100), accounts(5));
    assert_eq!(ctx.account(0), handle(1));
    ctx.consume_accounts(2);
    assert_eq!(ctx.remaining_len(), 3);
    assert_eq!(ctx.account(0), handle(3));
    assert_eq!(ctx.accounts.len(), 5);
}

#[test]
fn run_assembles_the_plan_around_the_wrapped_call() {
    let proxy = MarketProxy::new()
        .middleware(Middleware::Credix(CredixPermissionedMarket {
            signing_authority_bump: 0,
            gate: CredentialCheck::Skip,
        }))
        .middleware(Middleware::OpenOrders(OpenOrdersPda::new()))
        .middleware(Middleware::Referral(ReferralFees::new(pk(0xEBB1))));
    let accs = accounts(16);
    let data = vec![7u8, 9, 5];
    let plan = proxy.run(pk(100), &accs, &data).unwrap();
    assert_eq!(plan.pre_instructions.len(), 1);
    assert_eq!(plan.post_instructions.len(), 1);
    assert_eq!(plan.wrapped.program_id, pk(14));
    assert_eq!(plan.wrapped.accounts.len(), 2);
    assert_eq!(plan.wrapped.instruction, DexInstruction::SettleFunds);
    assert_eq!(plan.pre_instructions[0].seeds.len(), 1);
    assert_eq!(plan.pre_instructions[0].seeds[0].bump, 7);
    // The wrapped call carries every accumulated signer-seed set.
    assert_eq!(
        plan.wrapped.seeds,
        vec![
            SignerSeeds { tag: SeedTag::SigningAuthority, bump: 7 },
            SignerSeeds { tag: SeedTag::SigningAuthority, bump: 7 },
        ]
    );
}

#[test]
fn init_open_orders_records_the_open_orders_seed_set() {
    let proxy = MarketProxy::new()
        .middleware(Middleware::Credix(CredixPermissionedMarket {
            signing_authority_bump: 0,
            gate: CredentialCheck::Skip,
        }))
        .middleware(Middleware::OpenOrders(OpenOrdersPda::new()))
        .middleware(Middleware::Referral(ReferralFees::new(pk(0xEBB1))));
    let accs = accounts(16);
    let data = vec![7u8, 9, 15];
    let plan = proxy.run(pk(100), &accs, &data).unwrap();
    assert_eq!(plan.wrapped.instruction, DexInstruction::InitOpenOrders);
    assert_eq!(plan.wrapped.seeds.len(), 3);
    assert_eq!(plan.wrapped.seeds[2], SignerSeeds { tag: SeedTag::OpenOrders, bump: 9 });
}
