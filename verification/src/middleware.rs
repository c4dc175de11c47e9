//! The registered middleware.
//!
//! Every middleware owns a fixed-width private header prefix, one hook per
//! opcode, and a fallback hook.  The permission-enforcement middleware
//! ([`CredixPermissionedMarket`]) wraps every order-affecting opcode with a
//! thaw of the caller's pooled-liquidity token account before the venue call
//! and an unconditional re-freeze after it, both signed by the program
//! authority derived from the bump its header byte carries; it consumes a
//! fixed block of thirteen accounts and consults the credential gate as an
//! explicit, independently configurable step.

use vstd::prelude::*;

use crate::account::AccountHandle;
use crate::account::Pubkey;
use crate::errors::ProxyError;
use crate::instruction::DexInstruction;
use crate::proxy::{Context, ContextView, SeedTag, SideInstruction, SideInstructionView, SignerSeeds};
use crate::state::CredixPass;

verus! {

/// Instruction byte the thaw side-call carries to the pool program.
pub const THAW_IX_TAG: u8 = 1;

/// Instruction byte the freeze side-call carries to the pool program.
pub const FREEZE_IX_TAG: u8 = 2;

/// How many leading accounts the permission middleware owns and slices away.
pub const PERMISSION_ACCOUNT_WIDTH: usize = 13;

/// How the permission middleware consults the credential gate: not at all,
/// or against the allow-list record the store returned for the caller.
/// Absence of a record is rejection, never implicit approval.
#[derive(Clone, Copy)]
pub enum CredentialCheck {
    /// Leave the check to the fund-movement boundary.
    Skip,
    /// Check the record the allow-list store holds for (market, holder),
    /// `None` when it holds none.
    Require(Option<CredixPass>),
}

/// What the credential gate answers: order-affecting work needs an active
/// pass with the underwriter capability, and no record means rejection.
pub open spec fn spec_gate_result(gate: CredentialCheck) -> Result<(), ProxyError> {
    match gate {
        CredentialCheck::Skip => Ok(()),
        CredentialCheck::Require(None) => Err(ProxyError::CredentialRejected),
        CredentialCheck::Require(Some(p)) => {
            if !p.active {
                Err(ProxyError::PassInactive)
            } else if !p.is_underwriter {
                Err(ProxyError::PassCapabilityMissing)
            } else {
                Ok(())
            }
        },
    }
}

/// Whether an opcode moves or exposes funds and therefore gets the
/// freeze/thaw wrapping and the credential consult.
pub open spec fn spec_order_affecting(ix: DexInstruction) -> bool {
    match ix {
        DexInstruction::InitOpenOrders => true,
        DexInstruction::NewOrderV3 { .. } => true,
        DexInstruction::CancelOrderV2 { .. } => true,
        DexInstruction::CancelOrderByClientIdV2 { .. } => true,
        DexInstruction::SettleFunds => true,
        DexInstruction::CloseOpenOrders => true,
        DexInstruction::Prune { .. } => false,
        DexInstruction::ConsumeEventsPermissioned { .. } => false,
    }
}

/// The permission-enforcement middleware.  Its header byte is the bump of
/// the proxy's signing authority, captured during header parsing and used as
/// the transient signer of the injected side-calls.
///
/// The thirteen accounts it owns, in order: the pool-token holder, the pool
/// token account, the proxy's transient signer, the pool's signing
/// authority, the pool-share mint, the market state, the holder's pass, the
/// token program, the pool program, the associated-token program, the system
/// program, the rent sysvar, and the holder's gateway credential.
#[derive(Clone, Copy)]
pub struct CredixPermissionedMarket {
    pub signing_authority_bump: u8,
    pub gate: CredentialCheck,
}

/// Serum-style middleware that readies a per-market open-orders account; its
/// header byte is that account's bump, recorded as a signer-seed set when
/// open orders are initialized.
#[derive(Clone, Copy)]
pub struct OpenOrdersPda {
    pub bump: u8,
}

/// Middleware that pins the referral-fee account of the deployment; it owns
/// no header bytes and forwards every opcode unchanged.
#[derive(Clone, Copy)]
pub struct ReferralFees {
    pub referral: Pubkey,
}

/// One registered middleware.
#[derive(Clone, Copy)]
pub enum Middleware {
    Credix(CredixPermissionedMarket),
    OpenOrders(OpenOrdersPda),
    Referral(ReferralFees),
}

/// The declared fixed width of a middleware's private header prefix.
pub open spec fn spec_header_width(mw: Middleware) -> nat {
    match mw {
        Middleware::Credix(_) => 1,
        Middleware::OpenOrders(_) => 1,
        Middleware::Referral(_) => 0,
    }
}

/// The declared fixed number of accounts a middleware slices away when
/// dispatching an opcode.
pub open spec fn spec_account_width(mw: Middleware, ix: DexInstruction) -> nat {
    match mw {
        Middleware::Credix(_) => if spec_order_affecting(ix) {
            PERMISSION_ACCOUNT_WIDTH as nat
        } else {
            0
        },
        Middleware::OpenOrders(_) => 0,
        Middleware::Referral(_) => 0,
    }
}

/// What header parsing does to a middleware: it reads exactly its declared
/// prefix, here the bump byte at its own offset.
pub open spec fn spec_capture_header(mw: Middleware, data: Seq<u8>, off: int) -> Middleware {
    match mw {
        Middleware::Credix(m) => Middleware::Credix(CredixPermissionedMarket {
            signing_authority_bump: data[off],
            gate: m.gate,
        }),
        Middleware::OpenOrders(_) => Middleware::OpenOrders(OpenOrdersPda { bump: data[off] }),
        Middleware::Referral(m) => Middleware::Referral(m),
    }
}

/// The signing-authority seed set with the given bump.
pub open spec fn spec_authority_seeds(bump: u8) -> SignerSeeds {
    SignerSeeds { tag: SeedTag::SigningAuthority, bump }
}

/// The account list both injected side-calls hand the pool program: the
/// permission middleware's accounts in declared order, minus the pool
/// program itself, with the proxy's transient signer marked as a signer.
pub open spec fn spec_cpi_accounts(cv: ContextView) -> Seq<AccountHandle> {
    seq![
        cv.account(0),
        cv.account(1),
        spec_prepare_pda(cv.account(2)),
        cv.account(3),
        cv.account(4),
        cv.account(5),
        cv.account(6),
        cv.account(7),
        cv.account(9),
        cv.account(10),
        cv.account(11),
        cv.account(12),
    ]
}

/// The thaw side-call the permission middleware queues before the venue call.
pub open spec fn spec_thaw_instruction(cv: ContextView, bump: u8) -> SideInstructionView {
    SideInstructionView {
        program_id: cv.account(8).key,
        accounts: spec_cpi_accounts(cv),
        data: seq![THAW_IX_TAG],
        seeds: seq![spec_authority_seeds(bump)],
    }
}

/// The freeze side-call the permission middleware queues after the venue call.
pub open spec fn spec_freeze_instruction(cv: ContextView, bump: u8) -> SideInstructionView {
    SideInstructionView {
        program_id: cv.account(8).key,
        accounts: spec_cpi_accounts(cv),
        data: seq![FREEZE_IX_TAG],
        seeds: seq![spec_authority_seeds(bump)],
    }
}

/// What the permission middleware does to the context on an order-affecting
/// opcode: it validates its thirteen accounts, runs the credential check,
/// queues the thaw pre-instruction and the freeze post-instruction — each
/// carrying the
/// signing-authority seed set — and slices its accounts away.  On failure it
/// queues nothing.
pub open spec fn spec_permissioned_dispatch(m: CredixPermissionedMarket, cv: ContextView)
    -> Result<ContextView, ProxyError> {
    if cv.remaining_len() < PERMISSION_ACCOUNT_WIDTH {
        Err(ProxyError::MissingRequiredAccounts)
    } else if spec_gate_result(m.gate) is Err {
        Err(spec_gate_result(m.gate)->Err_0)
    } else {
        Ok(ContextView {
            cursor: cv.cursor + PERMISSION_ACCOUNT_WIDTH,
            pre_instructions: cv.pre_instructions.push(
                spec_thaw_instruction(cv, m.signing_authority_bump)),
            post_instructions: cv.post_instructions.push(
                spec_freeze_instruction(cv, m.signing_authority_bump)),
            seeds: cv.seeds
                .push(spec_authority_seeds(m.signing_authority_bump))
                .push(spec_authority_seeds(m.signing_authority_bump)),
            ..cv
        })
    }
}

/// What dispatching one opcode through one middleware does to the context.
pub open spec fn spec_dispatch_one(mw: Middleware, ix: DexInstruction, cv: ContextView)
    -> Result<ContextView, ProxyError> {
    match mw {
        Middleware::Credix(m) => {
            if spec_order_affecting(ix) {
                spec_permissioned_dispatch(m, cv)
            } else {
                Ok(cv)
            }
        },
        Middleware::OpenOrders(m) => {
            if ix is InitOpenOrders {
                Ok(ContextView {
                    seeds: cv.seeds.push(SignerSeeds { tag: SeedTag::OpenOrders, bump: m.bump }),
                    ..cv
                })
            } else {
                Ok(cv)
            }
        },
        Middleware::Referral(_) => Ok(cv),
    }
}

/// What one middleware's fallback hook answers for an opcode no middleware
/// matched.
pub open spec fn spec_fallback_one(mw: Middleware) -> Result<(), ProxyError> {
    match mw {
        Middleware::Credix(_) => Err(ProxyError::InvalidInstructionData),
        Middleware::OpenOrders(_) => Ok(()),
        Middleware::Referral(_) => Ok(()),
    }
}

/// Marks an account handle as a transient signer for the rest of the call.
pub open spec fn spec_prepare_pda(a: AccountHandle) -> AccountHandle {
    AccountHandle { is_signer: true, ..a }
}

impl CredixPermissionedMarket {
    /// Marks the proxy's own derived account as a signer before handing it
    /// to a side-call.
    pub fn prepare_pda(acc_info: &AccountHandle) -> (r: AccountHandle)
        ensures
            r == spec_prepare_pda(*acc_info),
    {
        AccountHandle { key: acc_info.key, is_signer: true, is_writable: acc_info.is_writable }
    }

    /// Header hook: the middleware's one private header byte is the
    /// signing-authority bump.
    pub fn instruction(&mut self, data: &Vec<u8>, off: usize)
        requires
            off < data@.len(),
        ensures
            final(self).signing_authority_bump == data@[off as int],
            final(self).gate == old(self).gate,
    {
        self.signing_authority_bump = data[off];
    }

    /// Builds the account list both side-calls hand the pool program.
    fn cpi_accounts(&self, ctx: &Context) -> (v: Vec<AccountHandle>)
        requires
            ctx@.wf(),
            ctx@.remaining_len() >= PERMISSION_ACCOUNT_WIDTH,
        ensures
            v@ == spec_cpi_accounts(ctx@),
    {
        let mut v: Vec<AccountHandle> = Vec::new();
        v.push(ctx.account(0));
        v.push(ctx.account(1));
        v.push(Self::prepare_pda(&ctx.account(2)));
        v.push(ctx.account(3));
        v.push(ctx.account(4));
        v.push(ctx.account(5));
        v.push(ctx.account(6));
        v.push(ctx.account(7));
        v.push(ctx.account(9));
        v.push(ctx.account(10));
        v.push(ctx.account(11));
        v.push(ctx.account(12));
        proof {
            assert(v@ =~= spec_cpi_accounts(ctx@));
        }
        v
    }

    /// Queues the pre-instruction that thaws the caller's pool token
    /// account, signed by the derived authority.
    pub fn thaw_lp_token_cpi(&self, ctx: &mut Context)
        requires
            old(ctx)@.wf(),
            old(ctx)@.remaining_len() >= PERMISSION_ACCOUNT_WIDTH,
        ensures
            final(ctx)@ == (ContextView {
                pre_instructions: old(ctx)@.pre_instructions.push(
                    spec_thaw_instruction(old(ctx)@, self.signing_authority_bump)),
                seeds: old(ctx)@.seeds.push(spec_authority_seeds(self.signing_authority_bump)),
                ..old(ctx)@
            }),
    {
        let accounts = self.cpi_accounts(ctx);
        let program_id = ctx.account(8).key;
        let mut data: Vec<u8> = Vec::new();
        data.push(THAW_IX_TAG);
        let mut seeds: Vec<SignerSeeds> = Vec::new();
        seeds.push(SignerSeeds { tag: SeedTag::SigningAuthority, bump: self.signing_authority_bump });
        ctx.push_seeds(SignerSeeds { tag: SeedTag::SigningAuthority, bump: self.signing_authority_bump });
        let ix = SideInstruction { program_id, accounts, data, seeds };
        proof {
            assert(ix@.data =~= seq![THAW_IX_TAG]);
            assert(ix@.seeds =~= seq![spec_authority_seeds(self.signing_authority_bump)]);
        }
        ctx.push_pre_instruction(ix);
    }

    /// Queues the post-instruction that re-freezes the caller's pool token
    /// account unconditionally, mirroring the thaw.
    pub fn freeze_lp_token_cpi(&self, ctx: &mut Context)
        requires
            old(ctx)@.wf(),
            old(ctx)@.remaining_len() >= PERMISSION_ACCOUNT_WIDTH,
        ensures
            final(ctx)@ == (ContextView {
                post_instructions: old(ctx)@.post_instructions.push(
                    spec_freeze_instruction(old(ctx)@, self.signing_authority_bump)),
                seeds: old(ctx)@.seeds.push(spec_authority_seeds(self.signing_authority_bump)),
                ..old(ctx)@
            }),
    {
        let accounts = self.cpi_accounts(ctx);
        let program_id = ctx.account(8).key;
        let mut data: Vec<u8> = Vec::new();
        data.push(FREEZE_IX_TAG);
        let mut seeds: Vec<SignerSeeds> = Vec::new();
        seeds.push(SignerSeeds { tag: SeedTag::SigningAuthority, bump: self.signing_authority_bump });
        ctx.push_seeds(SignerSeeds { tag: SeedTag::SigningAuthority, bump: self.signing_authority_bump });
        let ix = SideInstruction { program_id, accounts, data, seeds };
        proof {
            assert(ix@.data =~= seq![FREEZE_IX_TAG]);
            assert(ix@.seeds =~= seq![spec_authority_seeds(self.signing_authority_bump)]);
        }
        ctx.push_post_instruction(ix);
    }

    /// Consults the credential gate as configured; absence of a valid
    /// credential is rejection.
    fn consult_gate(&self) -> (r: Result<(), ProxyError>)
        ensures
            r == spec_gate_result(self.gate),
    {
        match self.gate {
            CredentialCheck::Skip => Ok(()),
            CredentialCheck::Require(None) => Err(ProxyError::CredentialRejected),
            CredentialCheck::Require(Some(p)) => {
                if !p.active {
                    Err(ProxyError::PassInactive)
                } else if !p.is_underwriter {
                    Err(ProxyError::PassCapabilityMissing)
                } else {
                    Ok(())
                }
            },
        }
    }

    /// The shared body of every order-affecting hook: validate the declared
    /// account block, run the credential check, queue thaw and freeze, slice the
    /// block away.  Nothing is queued on failure.
    fn handle_order_affecting(&self, ctx: &mut Context) -> (r: Result<(), ProxyError>)
        requires
            old(ctx)@.wf(),
        ensures
            match r {
                Ok(()) => {
                    &&& spec_permissioned_dispatch(*self, old(ctx)@) == Ok::<ContextView, ProxyError>(final(ctx)@)
                    &&& final(ctx)@.wf()
                },
                Err(e) => {
                    &&& spec_permissioned_dispatch(*self, old(ctx)@) == Err::<ContextView, ProxyError>(e)
                    &&& final(ctx)@ == old(ctx)@
                },
            },
    {
        if ctx.remaining_len() < PERMISSION_ACCOUNT_WIDTH {
            return Err(ProxyError::MissingRequiredAccounts);
        }
        if let Err(e) = self.consult_gate() {
            return Err(e);
        }
        self.thaw_lp_token_cpi(ctx);
        self.freeze_lp_token_cpi(ctx);
        ctx.consume_accounts(PERMISSION_ACCOUNT_WIDTH);
        Ok(())
    }

    /// Hook for the init-open-orders opcode.
    pub fn init_open_orders(&self, ctx: &mut Context) -> (r: Result<(), ProxyError>)
        requires
            old(ctx)@.wf(),
        ensures
            match r {
                Ok(()) => spec_permissioned_dispatch(*self, old(ctx)@)
                    == Ok::<ContextView, ProxyError>(final(ctx)@) && final(ctx)@.wf(),
                Err(e) => spec_permissioned_dispatch(*self, old(ctx)@)
                    == Err::<ContextView, ProxyError>(e) && final(ctx)@ == old(ctx)@,
            },
    {
        self.handle_order_affecting(ctx)
    }

    /// Hook for the new-order opcode.
    pub fn new_order_v3(&self, ctx: &mut Context) -> (r: Result<(), ProxyError>)
        requires
            old(ctx)@.wf(),
        ensures
            match r {
                Ok(()) => spec_permissioned_dispatch(*self, old(ctx)@)
                    == Ok::<ContextView, ProxyError>(final(ctx)@) && final(ctx)@.wf(),
                Err(e) => spec_permissioned_dispatch(*self, old(ctx)@)
                    == Err::<ContextView, ProxyError>(e) && final(ctx)@ == old(ctx)@,
            },
    {
        self.handle_order_affecting(ctx)
    }

    /// Hook for cancel-order by order id.
    pub fn cancel_order_v2(&self, ctx: &mut Context) -> (r: Result<(), ProxyError>)
        requires
            old(ctx)@.wf(),
        ensures
            match r {
                Ok(()) => spec_permissioned_dispatch(*self, old(ctx)@)
                    == Ok::<ContextView, ProxyError>(final(ctx)@) && final(ctx)@.wf(),
                Err(e) => spec_permissioned_dispatch(*self, old(ctx)@)
                    == Err::<ContextView, ProxyError>(e) && final(ctx)@ == old(ctx)@,
            },
    {
        self.handle_order_affecting(ctx)
    }

    /// Hook for cancel-order by client id.
    pub fn cancel_order_by_client_id_v2(&self, ctx: &mut Context) -> (r: Result<(), ProxyError>)
        requires
            old(ctx)@.wf(),
        ensures
            match r {
                Ok(()) => spec_permissioned_dispatch(*self, old(ctx)@)
                    == Ok::<ContextView, ProxyError>(final(ctx)@) && final(ctx)@.wf(),
                Err(e) => spec_permissioned_dispatch(*self, old(ctx)@)
                    == Err::<ContextView, ProxyError>(e) && final(ctx)@ == old(ctx)@,
            },
    {
        self.handle_order_affecting(ctx)
    }

    /// Hook for the settle-funds opcode.
    pub fn settle_funds(&self, ctx: &mut Context) -> (r: Result<(), ProxyError>)
        requires
            old(ctx)@.wf(),
        ensures
            match r {
                Ok(()) => spec_permissioned_dispatch(*self, old(ctx)@)
                    == Ok::<ContextView, ProxyError>(final(ctx)@) && final(ctx)@.wf(),
                Err(e) => spec_permissioned_dispatch(*self, old(ctx)@)
                    == Err::<ContextView, ProxyError>(e) && final(ctx)@ == old(ctx)@,
            },
    {
        self.handle_order_affecting(ctx)
    }

    /// Hook for the close-open-orders opcode.
    pub fn close_open_orders(&self, ctx: &mut Context) -> (r: Result<(), ProxyError>)
        requires
            old(ctx)@.wf(),
        ensures
            match r {
                Ok(()) => spec_permissioned_dispatch(*self, old(ctx)@)
                    == Ok::<ContextView, ProxyError>(final(ctx)@) && final(ctx)@.wf(),
                Err(e) => spec_permissioned_dispatch(*self, old(ctx)@)
                    == Err::<ContextView, ProxyError>(e) && final(ctx)@ == old(ctx)@,
            },
    {
        self.handle_order_affecting(ctx)
    }

    /// Hook for the prune opcode: not order-affecting, forwarded unchanged.
    pub fn prune(&self, ctx: &mut Context) -> (r: Result<(), ProxyError>)
        ensures
            r is Ok,
            final(ctx)@ == old(ctx)@,
    {
        Ok(())
    }

    /// Hook for the consume-events opcode: forwarded unchanged.
    pub fn consume_events_permissioned(&self, ctx: &mut Context) -> (r: Result<(), ProxyError>)
        ensures
            r is Ok,
            final(ctx)@ == old(ctx)@,
    {
        Ok(())
    }

    /// Fallback hook: this middleware handles no unmatched opcode.
    pub fn fallback(&self, ctx: &mut Context) -> (r: Result<(), ProxyError>)
        ensures
            r == Err::<(), ProxyError>(ProxyError::InvalidInstructionData),
            final(ctx)@ == old(ctx)@,
    {
        Err(ProxyError::InvalidInstructionData)
    }
}

impl Default for CredixPermissionedMarket {
    /// A permission middleware with no bump captured yet and the credential check left
    /// to the fund-movement boundary.
    fn default() -> (d: Self)
        ensures
            d.signing_authority_bump == 0,
            d.gate is Skip,
    {
        CredixPermissionedMarket { signing_authority_bump: 0, gate: CredentialCheck::Skip }
    }
}

impl OpenOrdersPda {
    /// A fresh open-orders middleware with no bump captured yet.
    pub fn new() -> (m: OpenOrdersPda)
        ensures
            m.bump == 0,
    {
        OpenOrdersPda { bump: 0 }
    }

    /// Header hook: the one private header byte is the open-orders bump.
    pub fn instruction(&mut self, data: &Vec<u8>, off: usize)
        requires
            off < data@.len(),
        ensures
            final(self).bump == data@[off as int],
    {
        self.bump = data[off];
    }

    /// Hook for init-open-orders: records the open-orders seed set.
    pub fn init_open_orders(&self, ctx: &mut Context) -> (r: Result<(), ProxyError>)
        ensures
            r is Ok,
            final(ctx)@ == (ContextView {
                seeds: old(ctx)@.seeds.push(SignerSeeds { tag: SeedTag::OpenOrders, bump: self.bump }),
                ..old(ctx)@
            }),
    {
        ctx.push_seeds(SignerSeeds { tag: SeedTag::OpenOrders, bump: self.bump });
        Ok(())
    }
}

impl ReferralFees {
    /// A referral-fee middleware pinned to the given collector.
    pub fn new(referral: Pubkey) -> (m: ReferralFees)
        ensures
            m.referral == referral,
    {
        ReferralFees { referral }
    }
}

impl Middleware {
    /// The declared fixed width of this middleware's header prefix.
    pub fn header_width(&self) -> (n: usize)
        ensures
            n == spec_header_width(*self),
    {
        match self {
            Middleware::Credix(_) => 1,
            Middleware::OpenOrders(_) => 1,
            Middleware::Referral(_) => 0,
        }
    }

    /// Header hook: peels this middleware's declared prefix at `off`.
    pub fn instruction(&mut self, data: &Vec<u8>, off: usize)
        requires
            off + spec_header_width(*old(self)) <= data@.len(),
        ensures
            *final(self) == spec_capture_header(*old(self), data@, off as int),
    {
        match self {
            Middleware::Credix(m) => m.instruction(data, off),
            Middleware::OpenOrders(m) => m.instruction(data, off),
            Middleware::Referral(_) => (),
        }
    }

    /// Dispatch hook: runs this middleware's hook for the matched opcode.
    /// A middleware always removes exactly its declared account width:
    /// `remaining_len` shrinks by `spec_account_width(self, ix)` on success.
    pub fn run_opcode(&self, ix: &DexInstruction, ctx: &mut Context) -> (r: Result<(), ProxyError>)
        requires
            old(ctx)@.wf(),
        ensures
            match r {
                Ok(()) => {
                    &&& spec_dispatch_one(*self, *ix, old(ctx)@) == Ok::<ContextView, ProxyError>(final(ctx)@)
                    &&& final(ctx)@.wf()
                    &&& final(ctx)@.remaining_len()
                        == old(ctx)@.remaining_len() - spec_account_width(*self, *ix)
                },
                Err(e) => {
                    &&& spec_dispatch_one(*self, *ix, old(ctx)@) == Err::<ContextView, ProxyError>(e)
                    &&& final(ctx)@ == old(ctx)@
                },
            },
    {
        match self {
            Middleware::Credix(m) => {
                match ix {
                    DexInstruction::InitOpenOrders => m.init_open_orders(ctx),
                    DexInstruction::NewOrderV3 { .. } => m.new_order_v3(ctx),
                    DexInstruction::CancelOrderV2 { .. } => m.cancel_order_v2(ctx),
                    DexInstruction::CancelOrderByClientIdV2 { .. } => m.cancel_order_by_client_id_v2(ctx),
                    DexInstruction::SettleFunds => m.settle_funds(ctx),
                    DexInstruction::CloseOpenOrders => m.close_open_orders(ctx),
                    DexInstruction::Prune { .. } => m.prune(ctx),
                    DexInstruction::ConsumeEventsPermissioned { .. } => m.consume_events_permissioned(ctx),
                }
            },
            Middleware::OpenOrders(m) => {
                match ix {
                    DexInstruction::InitOpenOrders => m.init_open_orders(ctx),
                    _ => Ok(()),
                }
            },
            Middleware::Referral(_) => Ok(()),
        }
    }

    /// Fallback hook for an opcode outside the known space.
    pub fn fallback(&self, ctx: &mut Context) -> (r: Result<(), ProxyError>)
        ensures
            r == spec_fallback_one(*self),
            final(ctx)@ == old(ctx)@,
    {
        match self {
            Middleware::Credix(m) => m.fallback(ctx),
            Middleware::OpenOrders(_) => Ok(()),
            Middleware::Referral(_) => Ok(()),
        }
    }
}

/// Accounts of the one-time bootstrap path that creates the proxy's signing
/// authority: the paying signer, the authority account to create, the system
/// program and the rent sysvar.
#[derive(Clone, Copy)]
pub struct CreatePdaAccount {
    pub signer: AccountHandle,
    pub signing_pda: AccountHandle,
    pub system_program: AccountHandle,
    pub rent: AccountHandle,
}

/// The bootstrap path's stored account data: nothing but its existence.
#[derive(Clone, Copy, PartialEq, Eq, Structural, Debug)]
pub struct Empty {}

/// What validating the bootstrap accounts yields.
pub open spec fn spec_try_accounts(accounts: Seq<AccountHandle>)
    -> Result<CreatePdaAccount, ProxyError> {
    if accounts.len() < 4 {
        Err(ProxyError::MissingRequiredAccounts)
    } else if !(accounts[0].is_signer && accounts[0].is_writable) {
        Err(ProxyError::UnauthorizedSigner)
    } else {
        Ok(CreatePdaAccount {
            signer: accounts[0],
            signing_pda: accounts[1],
            system_program: accounts[2],
            rent: accounts[3],
        })
    }
}

impl CreatePdaAccount {
    /// Validates the bootstrap account list: the payer must be a writable
    /// signer and all four accounts must be present.
    pub fn try_accounts(accounts: &Vec<AccountHandle>) -> (r: Result<CreatePdaAccount, ProxyError>)
        ensures
            r == spec_try_accounts(accounts@),
    {
        if accounts.len() < 4 {
            return Err(ProxyError::MissingRequiredAccounts);
        }
        if !(accounts[0].is_signer && accounts[0].is_writable) {
            return Err(ProxyError::UnauthorizedSigner);
        }
        Ok(CreatePdaAccount {
            signer: accounts[0],
            signing_pda: accounts[1],
            system_program: accounts[2],
            rent: accounts[3],
        })
    }
}

} // verus!
