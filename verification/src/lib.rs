//! An instruction-level authorization proxy for an order-book venue.
//!
//! Raw instruction bytes and an ordered account list arrive at [`entry`].
//! A two-byte instruction beginning with the bootstrap sentinel routes to a
//! one-time bootstrap path that creates the proxy's own signing authority;
//! everything else runs through a middleware chain: each middleware peels its
//! private header bytes in registration order, the remaining payload is
//! decoded into an opcode, and each middleware's hook for that opcode runs in
//! registration order, queueing pre- and post-instructions around the wrapped
//! venue call and slicing the account list.  The permission-enforcement
//! middleware wraps every order-affecting opcode in a thaw of the caller's
//! pooled-liquidity token account before the venue call and a re-freeze after
//! it, both signed by a transient program-derived authority.
//!
//! The pipeline itself only builds a plan of calls; [`executor`] models the
//! ledger that runs such a plan as one atomic unit.

use vstd::prelude::*;

pub mod account;
pub mod context;
pub mod credix;
pub mod errors;
pub mod executor;
pub mod instruction;
pub mod middleware;
pub mod processor;
pub mod proxy;
pub mod spl_token_utils;
pub mod state;
pub mod token;
pub mod util;

use crate::account::{AccountHandle, Pubkey};
use crate::errors::ProxyError;
use crate::executor::{
    clone_ledger, lemma_sides_end_frozen, run_transaction, spec_apply_sides, spec_apply_wrapped,
    spec_run_transaction, Ledger, LedgerView,
};
use crate::instruction::spec_decode;
use crate::middleware::{
    spec_authority_seeds, spec_dispatch_one, spec_freeze_instruction, spec_order_affecting,
    spec_thaw_instruction, spec_try_accounts, CreatePdaAccount, CredentialCheck,
    CredixPermissionedMarket, Middleware, OpenOrdersPda, ReferralFees, FREEZE_IX_TAG, THAW_IX_TAG,
};
use crate::proxy::{
    spec_captured, spec_dispatch, spec_header_offset, spec_run, spec_total_header_width, CallPlan,
    CallPlanView, ContextView, ExecutionPlanView, MarketProxy, SideInstructionView, SignerSeeds,
};

verus! {

/// First byte of the two-byte bootstrap instruction.  It lies outside the
/// opcode space: no opcode discriminant equals it (see
/// [`instruction::lemma_sentinel_outside_opcode_space`]).
pub const BOOTSTRAP_SENTINEL: u8 = 255;

/// Address of the referral-fee collector configured for this deployment.
pub const REFERRAL_ID: u64 = 0xEBB1;

/// Where a raw instruction is routed.
#[derive(Clone, Copy, PartialEq, Eq, Structural, Debug)]
pub enum Route {
    /// The one-time bootstrap path that creates the signing authority.
    Bootstrap,
    /// The middleware chain in front of the wrapped venue.
    Proxy,
}

/// Whether raw bytes select the bootstrap path: exactly two bytes long and
/// beginning with the sentinel.
pub open spec fn spec_route(data: Seq<u8>) -> Route {
    if data.len() == 2 && data[0] == BOOTSTRAP_SENTINEL {
        Route::Bootstrap
    } else {
        Route::Proxy
    }
}

/// Routes raw instruction bytes: a two-byte instruction `[sentinel, b]` goes
/// to the bootstrap path, anything else to the middleware chain.
pub fn route(data: &Vec<u8>) -> (r: Route)
    ensures
        r == spec_route(data@),
{
    if data.len() == 2 && data[0] == BOOTSTRAP_SENTINEL {
        Route::Bootstrap
    } else {
        Route::Proxy
    }
}

/// The proxy program's own error codes, declared for its callers.
#[derive(Clone, Copy, PartialEq, Eq, Structural, Debug)]
pub enum ErrorCode {
    /// Invalid auth token provided.
    InvalidAuth,
    /// Auth token not revoked.
    TokenNotRevoked,
    /// Required side-call accounts and variables not found.
    MissingRequiredCpiAccounts,
}

/// The chain this deployment registers, in registration order: permission
/// enforcement, open-orders upkeep, referral fees.
pub open spec fn spec_standard_chain(gate: CredentialCheck) -> Seq<Middleware> {
    seq![
        Middleware::Credix(CredixPermissionedMarket { signing_authority_bump: 0, gate }),
        Middleware::OpenOrders(OpenOrdersPda { bump: 0 }),
        Middleware::Referral(ReferralFees { referral: Pubkey { value: REFERRAL_ID } }),
    ]
}

/// What the entry point decides: the bootstrap path when the sentinel
/// routes there, the standard chain's run otherwise.
pub open spec fn spec_entry(
    program_id: Pubkey,
    accounts: Seq<AccountHandle>,
    data: Seq<u8>,
    gate: CredentialCheck,
) -> Result<CallPlanView, ProxyError> {
    if spec_route(data) is Bootstrap {
        match spec_try_accounts(accounts) {
            Err(e) => Err(e),
            Ok(_) => Ok(CallPlanView::Bootstrap { bump: data[1] }),
        }
    } else {
        match spec_run(spec_standard_chain(gate), program_id, accounts, data) {
            Err(e) => Err(e),
            Ok(p) => Ok(CallPlanView::Proxied(p)),
        }
    }
}

/// The program's entry point: routes the raw bytes, then either validates
/// the bootstrap accounts or constructs the middleware chain — fixed, once
/// per call — and runs it.  The `gate` argument carries the allow-list
/// store's answer for the calling holder, for the permission middleware's
/// configurable credential check.
pub fn entry(
    program_id: Pubkey,
    accounts: &Vec<AccountHandle>,
    data: &Vec<u8>,
    gate: CredentialCheck,
) -> (r: Result<CallPlan, ProxyError>)
    ensures
        match r {
            Ok(p) => spec_entry(program_id, accounts@, data@, gate) == Ok::<
                CallPlanView,
                ProxyError,
            >(p@),
            Err(e) => spec_entry(program_id, accounts@, data@, gate) == Err::<
                CallPlanView,
                ProxyError,
            >(e),
        },
        r matches Ok(p) ==> ((p@ is Bootstrap) <==> spec_route(data@) is Bootstrap),
{
    match route(data) {
        Route::Bootstrap => {
            match CreatePdaAccount::try_accounts(accounts) {
                Err(e) => Err(e),
                Ok(_) => Ok(CallPlan::Bootstrap { bump: data[1] }),
            }
        },
        Route::Proxy => {
            let proxy = MarketProxy::new().middleware(
                Middleware::Credix(CredixPermissionedMarket { signing_authority_bump: 0, gate }),
            ).middleware(Middleware::OpenOrders(OpenOrdersPda::new())).middleware(
                Middleware::Referral(ReferralFees::new(Pubkey { value: REFERRAL_ID })),
            );
            proof {
                assert(proxy.middleware@ =~= spec_standard_chain(gate));
            }
            match proxy.run(program_id, accounts, data) {
                Err(e) => Err(e),
                Ok(p) => Ok(CallPlan::Proxied(p)),
            }
        },
    }
}

/// The standard chain's middleware consume two header bytes in all: the
/// signing-authority bump, then the open-orders bump.
pub proof fn lemma_standard_chain_header_width(gate: CredentialCheck)
    ensures
        spec_total_header_width(spec_standard_chain(gate)) == 2,
{
    reveal_with_fuel(spec_header_offset, 5);
}

/// Whether raw bytes select, behind the standard chain's two header bytes,
/// an opcode that gets the freeze/thaw wrapping.
pub open spec fn spec_order_affecting_bytes(data: Seq<u8>) -> bool {
    &&& spec_route(data) is Proxy
    &&& data.len() >= 2
    &&& match spec_decode(data.skip(2)) {
        Ok(ix) => spec_order_affecting(ix),
        Err(_) => false,
    }
}

/// A successful run of the standard chain on an order-affecting opcode
/// queues exactly one pre-instruction and one post-instruction: the thaw
/// before the wrapped call and the unconditional re-freeze after it, always
/// paired, and each carrying exactly the signing-authority seed set for the
/// bump the header carried.
pub proof fn lemma_standard_chain_freeze_post(
    gate: CredentialCheck,
    program_id: Pubkey,
    accounts: Seq<AccountHandle>,
    data: Seq<u8>,
    p: ExecutionPlanView,
)
    requires
        spec_run(spec_standard_chain(gate), program_id, accounts, data) == Ok::<
            ExecutionPlanView,
            ProxyError,
        >(p),
        spec_order_affecting_bytes(data),
    ensures
        p.pre_instructions.len() == 1,
        p.pre_instructions[0].data == seq![THAW_IX_TAG],
        p.pre_instructions[0].seeds == seq![spec_authority_seeds(data[0])],
        p.post_instructions.len() == 1,
        p.post_instructions[0].data == seq![FREEZE_IX_TAG],
        p.post_instructions[0].seeds == seq![spec_authority_seeds(data[0])],
{
    let chain = spec_standard_chain(gate);
    lemma_standard_chain_header_width(gate);
    let captured = spec_captured(chain, data);
    let ix = spec_decode(data.skip(2))->Ok_0;
    let cv0 = ContextView {
        program_id,
        accounts,
        cursor: 0,
        pre_instructions: Seq::<SideInstructionView>::empty(),
        post_instructions: Seq::<SideInstructionView>::empty(),
        seeds: Seq::<SignerSeeds>::empty(),
    };
    assert(captured.len() == 3);
    assert(captured.skip(1)[0] == captured[1]);
    assert(captured.skip(1).skip(1) =~= captured.skip(2));
    assert(captured.skip(2)[0] == captured[2]);
    assert(captured.skip(2).skip(1) =~= captured.skip(3));
    assert(captured.skip(3) =~= Seq::<Middleware>::empty());
    reveal_with_fuel(crate::proxy::spec_dispatch, 5);
    let d = spec_dispatch(captured, ix, cv0);
    assert(d is Ok);
    let cv = d->Ok_0;
    let step0 = spec_dispatch_one(captured[0], ix, cv0);
    assert(step0 is Ok);
    let cv1 = step0->Ok_0;
    assert(cv1.pre_instructions
        =~= seq![spec_thaw_instruction(cv0, data[spec_header_offset(chain, 0)])]);
    assert(cv1.post_instructions
        =~= seq![spec_freeze_instruction(cv0, data[spec_header_offset(chain, 0)])]);
    let step1 = spec_dispatch_one(captured[1], ix, cv1);
    assert(step1 is Ok && step1->Ok_0.pre_instructions == cv1.pre_instructions
        && step1->Ok_0.post_instructions == cv1.post_instructions);
    let cv2 = step1->Ok_0;
    let step2 = spec_dispatch_one(captured[2], ix, cv2);
    assert(step2 == Ok::<ContextView, ProxyError>(cv2));
    assert(cv.pre_instructions == cv1.pre_instructions);
    assert(cv.post_instructions == cv1.post_instructions);
    assert(p.pre_instructions == cv.pre_instructions);
    assert(p.post_instructions == cv.post_instructions);
}

/// The ledger outcome of one full top-level call: what the entry point
/// decided, run as one atomic unit.
pub open spec fn spec_process_call(
    l: LedgerView,
    program_id: Pubkey,
    accounts: Seq<AccountHandle>,
    data: Seq<u8>,
    gate: CredentialCheck,
) -> (Result<(), ProxyError>, LedgerView) {
    match spec_entry(program_id, accounts, data, gate) {
        Err(e) => (Err(e), l),
        Ok(plan) => spec_run_transaction(l, plan),
    }
}

/// Runs one full top-level call against the ledger.  Two laws ride on the
/// contract: a failed call leaves the ledger exactly as it was, and a
/// successful order-affecting call leaves the pooled-liquidity token
/// account frozen — the thaw, the venue call and the re-freeze net to a
/// frozen account whatever state it started in.
pub fn process_call(
    ledger: &Ledger,
    program_id: Pubkey,
    accounts: &Vec<AccountHandle>,
    data: &Vec<u8>,
    gate: CredentialCheck,
) -> (r: (Result<(), ProxyError>, Ledger))
    ensures
        r.0 == spec_process_call(ledger@, program_id, accounts@, data@, gate).0,
        r.1@ == spec_process_call(ledger@, program_id, accounts@, data@, gate).1,
        r.0 is Err ==> r.1@ == ledger@,
        r.0 is Ok && spec_order_affecting_bytes(data@) ==> r.1@.pool_token.frozen,
{
    let plan = match entry(program_id, accounts, data, gate) {
        Ok(p) => p,
        Err(e) => {
            return (Err(e), clone_ledger(ledger));
        },
    };
    let r = run_transaction(ledger, &plan);
    proof {
        if r.0 is Ok && spec_order_affecting_bytes(data@) {
            let pv = spec_run(spec_standard_chain(gate), program_id, accounts@, data@)->Ok_0;
            assert(plan@ == CallPlanView::Proxied(pv));
            lemma_standard_chain_freeze_post(gate, program_id, accounts@, data@, pv);
            let l1r = spec_apply_sides(ledger@, pv.pre_instructions);
            assert(l1r is Ok);
            let l2r = spec_apply_wrapped(l1r->Ok_0, pv.wrapped);
            assert(l2r is Ok);
            let l3r = spec_apply_sides(l2r->Ok_0, pv.post_instructions);
            assert(l3r is Ok);
            assert(pv.post_instructions.last() == pv.post_instructions[0]);
            lemma_sides_end_frozen(l2r->Ok_0, pv.post_instructions);
            assert(r.1@ == l3r->Ok_0);
        }
    }
    r
}

} // verus!
