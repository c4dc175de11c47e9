//! The per-call state the middleware chain threads, and the plan it builds.
//!
//! A [`Context`] lives for exactly one top-level call.  Its account list is
//! an immutable backing sequence plus a cursor: a middleware hands ownership
//! of the "remaining accounts" view to the next by advancing the cursor, and
//! can never read an account it has already sliced away, nor re-expand the
//! list.  Queued side-instructions and accumulated signer-seed sets ride
//! along.  The chain's output is an [`ExecutionPlan`]: the queued
//! pre-instructions, the wrapped venue call, and the queued
//! post-instructions, in exactly the order they must run.

use vstd::prelude::*;

use crate::account::{AccountHandle, Pubkey};
use crate::errors::ProxyError;
use crate::instruction::{decode_instruction, spec_decode, DecodeError, DexInstruction};
use crate::middleware::{
    spec_capture_header, spec_dispatch_one, spec_fallback_one, spec_header_width, Middleware,
};

verus! {

/// Which fixed seed string a signer-seed set begins with.
#[derive(Clone, Copy, PartialEq, Eq, Structural, Debug)]
pub enum SeedTag {
    /// The proxy's own signing authority, seed string `signing-authority`.
    SigningAuthority,
    /// A per-market open-orders account, seed string `open-orders`.
    OpenOrders,
}

/// One signer-seed set: the fixed seed string plus the bump byte.  Together
/// they derive the transient program-owned signer for a side-instruction.
#[derive(Clone, Copy, PartialEq, Eq, Structural, Debug)]
pub struct SignerSeeds {
    pub tag: SeedTag,
    pub bump: u8,
}

/// A queued side-effect call: target program, account list, instruction
/// bytes, and the signer-seed sets that authenticate it.
pub struct SideInstruction {
    pub program_id: Pubkey,
    pub accounts: Vec<AccountHandle>,
    pub data: Vec<u8>,
    pub seeds: Vec<SignerSeeds>,
}

/// Mathematical image of a [`SideInstruction`].
pub ghost struct SideInstructionView {
    pub program_id: Pubkey,
    pub accounts: Seq<AccountHandle>,
    pub data: Seq<u8>,
    pub seeds: Seq<SignerSeeds>,
}

impl View for SideInstruction {
    type V = SideInstructionView;

    open spec fn view(&self) -> SideInstructionView {
        SideInstructionView {
            program_id: self.program_id,
            accounts: self.accounts@,
            data: self.data@,
            seeds: self.seeds@,
        }
    }
}

/// The mutable per-call state threaded through the pipeline.
pub struct Context {
    /// The program the proxy itself runs as.
    pub program_id: Pubkey,
    /// The immutable backing sequence of account handles.
    pub accounts: Vec<AccountHandle>,
    /// How many leading accounts earlier stages have sliced away.
    pub cursor: usize,
    /// Side-instructions to run strictly before the wrapped call, in push order.
    pub pre_instructions: Vec<SideInstruction>,
    /// Side-instructions to run strictly after the wrapped call, in push order.
    pub post_instructions: Vec<SideInstruction>,
    /// Signer-seed sets accumulated for the call.
    pub seeds: Vec<SignerSeeds>,
}

/// Mathematical image of a [`Context`].
pub ghost struct ContextView {
    pub program_id: Pubkey,
    pub accounts: Seq<AccountHandle>,
    pub cursor: int,
    pub pre_instructions: Seq<SideInstructionView>,
    pub post_instructions: Seq<SideInstructionView>,
    pub seeds: Seq<SignerSeeds>,
}

impl View for Context {
    type V = ContextView;

    open spec fn view(&self) -> ContextView {
        ContextView {
            program_id: self.program_id,
            accounts: self.accounts@,
            cursor: self.cursor as int,
            pre_instructions: self.pre_instructions@.map_values(|ix: SideInstruction| ix@),
            post_instructions: self.post_instructions@.map_values(|ix: SideInstruction| ix@),
            seeds: self.seeds@,
        }
    }
}

impl ContextView {
    /// The cursor never outruns the backing sequence.
    pub open spec fn wf(self) -> bool {
        0 <= self.cursor <= self.accounts.len()
    }

    /// The accounts still visible: the backing sequence past the cursor.
    pub open spec fn remaining(self) -> Seq<AccountHandle> {
        self.accounts.skip(self.cursor)
    }

    /// How many accounts are still visible.
    pub open spec fn remaining_len(self) -> int {
        self.accounts.len() - self.cursor
    }

    /// The account `i` places past the cursor.
    pub open spec fn account(self, i: int) -> AccountHandle {
        self.accounts[self.cursor + i]
    }
}

impl Context {
    /// A fresh context for one top-level call: full account list visible,
    /// nothing queued.
    pub fn new(program_id: Pubkey, accounts: Vec<AccountHandle>) -> (ctx: Context)
        ensures
            ctx@ == (ContextView {
                program_id,
                accounts: accounts@,
                cursor: 0,
                pre_instructions: Seq::<SideInstructionView>::empty(),
                post_instructions: Seq::<SideInstructionView>::empty(),
                seeds: Seq::<SignerSeeds>::empty(),
            }),
    {
        let ctx = Context {
            program_id,
            accounts,
            cursor: 0,
            pre_instructions: Vec::new(),
            post_instructions: Vec::new(),
            seeds: Vec::new(),
        };
        proof {
            assert(ctx.pre_instructions@.map_values(|ix: SideInstruction| ix@)
                =~= Seq::<SideInstructionView>::empty());
            assert(ctx.post_instructions@.map_values(|ix: SideInstruction| ix@)
                =~= Seq::<SideInstructionView>::empty());
        }
        ctx
    }

    /// How many accounts are still visible.
    pub fn remaining_len(&self) -> (n: usize)
        requires
            self@.wf(),
        ensures
            n == self@.remaining_len(),
    {
        self.accounts.len() - self.cursor
    }

    /// Reads the account `i` places past the cursor; accounts already sliced
    /// away are unreachable by construction.
    pub fn account(&self, i: usize) -> (a: AccountHandle)
        requires
            self@.wf(),
            i < self@.remaining_len(),
        ensures
            a == self@.account(i as int),
    {
        let len: usize = self.accounts.len();
        assert(self.cursor + i < len);
        self.accounts[self.cursor + i]
    }

    /// Slices the next `n` accounts away: they belonged to the calling
    /// middleware, and later stages see only what follows.
    pub fn consume_accounts(&mut self, n: usize)
        requires
            old(self)@.wf(),
            n <= old(self)@.remaining_len(),
        ensures
            final(self)@ == (ContextView { cursor: old(self)@.cursor + n, ..old(self)@ }),
    {
        let len: usize = self.accounts.len();
        assert(self.cursor + n <= len);
        self.cursor = self.cursor + n;
    }

    /// Queues a side-instruction to run before the wrapped call.
    pub fn push_pre_instruction(&mut self, ix: SideInstruction)
        ensures
            final(self)@ == (ContextView {
                pre_instructions: old(self)@.pre_instructions.push(ix@),
                ..old(self)@
            }),
    {
        let ghost prior = self.pre_instructions@;
        self.pre_instructions.push(ix);
        proof {
            assert(self.pre_instructions@.map_values(|i: SideInstruction| i@)
                =~= prior.map_values(|i: SideInstruction| i@).push(self.pre_instructions@.last()@));
        }
    }

    /// Queues a side-instruction to run after the wrapped call.
    pub fn push_post_instruction(&mut self, ix: SideInstruction)
        ensures
            final(self)@ == (ContextView {
                post_instructions: old(self)@.post_instructions.push(ix@),
                ..old(self)@
            }),
    {
        let ghost prior = self.post_instructions@;
        self.post_instructions.push(ix);
        proof {
            assert(self.post_instructions@.map_values(|i: SideInstruction| i@)
                =~= prior.map_values(|i: SideInstruction| i@).push(self.post_instructions@.last()@));
        }
    }

    /// Records a signer-seed set for the call.
    pub fn push_seeds(&mut self, s: SignerSeeds)
        ensures
            final(self)@ == (ContextView { seeds: old(self)@.seeds.push(s), ..old(self)@ }),
    {
        self.seeds.push(s);
    }
}

/// The wrapped venue call: the final remaining account list and the decoded
/// instruction, forwarded opaquely, signed with every signer-seed set the
/// middleware accumulated.
pub struct WrappedCall {
    pub program_id: Pubkey,
    pub accounts: Vec<AccountHandle>,
    pub instruction: DexInstruction,
    pub seeds: Vec<SignerSeeds>,
}

/// Mathematical image of a [`WrappedCall`].
pub ghost struct WrappedCallView {
    pub program_id: Pubkey,
    pub accounts: Seq<AccountHandle>,
    pub instruction: DexInstruction,
    pub seeds: Seq<SignerSeeds>,
}

impl View for WrappedCall {
    type V = WrappedCallView;

    open spec fn view(&self) -> WrappedCallView {
        WrappedCallView {
            program_id: self.program_id,
            accounts: self.accounts@,
            instruction: self.instruction,
            seeds: self.seeds@,
        }
    }
}

/// What one proxied call must execute, in order: every pre-instruction in
/// push order, then the wrapped call, then every post-instruction in push
/// order — each at most once, and nothing after a failure.
pub struct ExecutionPlan {
    pub pre_instructions: Vec<SideInstruction>,
    pub wrapped: WrappedCall,
    pub post_instructions: Vec<SideInstruction>,
}

/// Mathematical image of an [`ExecutionPlan`].
pub ghost struct ExecutionPlanView {
    pub pre_instructions: Seq<SideInstructionView>,
    pub wrapped: WrappedCallView,
    pub post_instructions: Seq<SideInstructionView>,
}

impl View for ExecutionPlan {
    type V = ExecutionPlanView;

    open spec fn view(&self) -> ExecutionPlanView {
        ExecutionPlanView {
            pre_instructions: self.pre_instructions@.map_values(|ix: SideInstruction| ix@),
            wrapped: self.wrapped@,
            post_instructions: self.post_instructions@.map_values(|ix: SideInstruction| ix@),
        }
    }
}

/// What the entry point decided a call must do: run the one-time bootstrap,
/// or run a proxied plan.
pub enum CallPlan {
    /// Create the proxy's signing-authority account with this bump.
    Bootstrap { bump: u8 },
    /// Run the middleware chain's plan.
    Proxied(ExecutionPlan),
}

/// Mathematical image of a [`CallPlan`].
pub ghost enum CallPlanView {
    Bootstrap { bump: u8 },
    Proxied(ExecutionPlanView),
}

impl View for CallPlan {
    type V = CallPlanView;

    open spec fn view(&self) -> CallPlanView {
        match self {
            CallPlan::Bootstrap { bump } => CallPlanView::Bootstrap { bump: *bump },
            CallPlan::Proxied(p) => CallPlanView::Proxied(p@),
        }
    }
}

/// Where middleware `i`'s header prefix begins: the sum of the declared
/// widths of everything registered before it.
pub open spec fn spec_header_offset(mws: Seq<Middleware>, i: int) -> int
    decreases i,
{
    if i <= 0 {
        0
    } else {
        spec_header_offset(mws, i - 1) + spec_header_width(mws[i - 1])
    }
}

/// The total number of header bytes the registered middleware consume.
pub open spec fn spec_total_header_width(mws: Seq<Middleware>) -> int {
    spec_header_offset(mws, mws.len() as int)
}

/// The chain after the header phase: each middleware has read exactly its
/// declared prefix, at its own offset, in registration order.
pub open spec fn spec_captured(mws: Seq<Middleware>, data: Seq<u8>) -> Seq<Middleware> {
    Seq::new(mws.len(), |i: int| spec_capture_header(mws[i], data, spec_header_offset(mws, i)))
}

proof fn lemma_header_offset_mono(mws: Seq<Middleware>, i: int, j: int)
    requires
        0 <= i <= j,
    ensures
        spec_header_offset(mws, i) <= spec_header_offset(mws, j),
    decreases j,
{
    if i < j {
        lemma_header_offset_mono(mws, i, j - 1);
    }
}

/// The header phase.  Every middleware peels its declared fixed-width
/// prefix, in registration order; if the cumulative consumption would
/// exceed the payload, the call fails with `MalformedInstruction` and no
/// middleware captures anything.
pub fn header_phase(middleware: &mut Vec<Middleware>, data: &Vec<u8>) -> (r: Result<
    usize,
    ProxyError,
>)
    ensures
        match r {
            Ok(off) => {
                &&& off == spec_total_header_width(old(middleware)@)
                &&& off <= data@.len()
                &&& final(middleware)@ == spec_captured(old(middleware)@, data@)
            },
            Err(e) => {
                &&& e == ProxyError::MalformedInstruction
                &&& spec_total_header_width(old(middleware)@) > data@.len()
                &&& final(middleware)@ == old(middleware)@
            },
        },
{
    let n: usize = middleware.len();
    let mut total: usize = 0;
    let mut i: usize = 0;
    while i < n
        invariant
            i <= n,
            n == middleware@.len(),
            total == spec_header_offset(middleware@, i as int),
            total <= i,
        decreases n - i,
    {
        let w = middleware[i].header_width();
        assert(spec_header_width(middleware@[i as int]) <= 1);
        total = total + w;
        i = i + 1;
    }
    if total > data.len() {
        return Err(ProxyError::MalformedInstruction);
    }
    let ghost orig = middleware@;
    let dlen: usize = data.len();
    let mut off: usize = 0;
    let mut j: usize = 0;
    while j < n
        invariant
            j <= n,
            n == middleware@.len(),
            middleware@.len() == orig.len(),
            off == spec_header_offset(orig, j as int),
            spec_total_header_width(orig) <= dlen,
            dlen == data@.len(),
            forall|k: int| 0 <= k < j ==> middleware@[k]
                == spec_capture_header(orig[k], data@, spec_header_offset(orig, k)),
            forall|k: int| j <= k < n ==> middleware@[k] == orig[k],
        decreases n - j,
    {
        let mut mw = middleware[j];
        let w = mw.header_width();
        proof {
            lemma_header_offset_mono(orig, j as int + 1, orig.len() as int);
            assert(spec_header_offset(orig, j as int + 1)
                == off + spec_header_width(orig[j as int]));
        }
        mw.instruction(data, off);
        middleware.set(j, mw);
        off = off + w;
        j = j + 1;
    }
    proof {
        assert(middleware@ =~= spec_captured(orig, data@));
    }
    Ok(off)
}

/// The dispatch fold: each middleware's hook for the matched opcode, in
/// registration order, threading one context; the first failure aborts.
pub open spec fn spec_dispatch(mws: Seq<Middleware>, ix: DexInstruction, cv: ContextView)
    -> Result<ContextView, ProxyError>
    decreases mws.len(),
{
    if mws.len() == 0 {
        Ok(cv)
    } else {
        match spec_dispatch_one(mws[0], ix, cv) {
            Err(e) => Err(e),
            Ok(cv2) => spec_dispatch(mws.skip(1), ix, cv2),
        }
    }
}

/// The dispatch phase: runs every middleware's hook for `ix` in
/// registration order over one context.
fn dispatch_phase(middleware: &Vec<Middleware>, ix: &DexInstruction, ctx: Context) -> (r: Result<
    Context,
    ProxyError,
>)
    requires
        ctx@.wf(),
    ensures
        match r {
            Ok(c) => spec_dispatch(middleware@, *ix, ctx@) == Ok::<ContextView, ProxyError>(c@)
                && c@.wf(),
            Err(e) => spec_dispatch(middleware@, *ix, ctx@) == Err::<ContextView, ProxyError>(e),
        },
{
    let n: usize = middleware.len();
    let mut cur = ctx;
    let mut i: usize = 0;
    proof {
        assert(middleware@.skip(0) =~= middleware@);
    }
    while i < n
        invariant
            i <= n,
            n == middleware@.len(),
            cur@.wf(),
            spec_dispatch(middleware@, *ix, ctx@) == spec_dispatch(middleware@.skip(i as int), *ix, cur@),
        decreases n - i,
    {
        let ghost before = cur@;
        let r = middleware[i].run_opcode(ix, &mut cur);
        proof {
            assert(middleware@.skip(i as int)[0] == middleware@[i as int]);
            assert(middleware@.skip(i as int).skip(1) =~= middleware@.skip(i as int + 1));
        }
        match r {
            Ok(()) => (),
            Err(e) => {
                return Err(e);
            },
        }
        i = i + 1;
    }
    proof {
        assert(middleware@.skip(n as int) =~= Seq::<Middleware>::empty());
    }
    Ok(cur)
}

/// The error an unmatched opcode ends in: the first middleware whose
/// fallback hook rejects decides; if none handles it, the chain itself
/// fails with `InvalidInstructionData`.
pub open spec fn spec_fallback_error(mws: Seq<Middleware>) -> ProxyError
    decreases mws.len(),
{
    if mws.len() == 0 {
        ProxyError::InvalidInstructionData
    } else {
        match spec_fallback_one(mws[0]) {
            Err(e) => e,
            Ok(()) => spec_fallback_error(mws.skip(1)),
        }
    }
}

/// Runs every fallback hook in registration order; an unmatched opcode
/// always ends in an error.
fn fallback_phase(middleware: &Vec<Middleware>, ctx: &mut Context) -> (e: ProxyError)
    ensures
        e == spec_fallback_error(middleware@),
        final(ctx)@ == old(ctx)@,
{
    let n: usize = middleware.len();
    let mut i: usize = 0;
    proof {
        assert(middleware@.skip(0) =~= middleware@);
    }
    while i < n
        invariant
            i <= n,
            n == middleware@.len(),
            ctx@ == old(ctx)@,
            spec_fallback_error(middleware@) == spec_fallback_error(middleware@.skip(i as int)),
        decreases n - i,
    {
        let r = middleware[i].fallback(ctx);
        proof {
            assert(middleware@.skip(i as int)[0] == middleware@[i as int]);
            assert(middleware@.skip(i as int).skip(1) =~= middleware@.skip(i as int + 1));
        }
        match r {
            Ok(()) => (),
            Err(e) => {
                return e;
            },
        }
        i = i + 1;
    }
    proof {
        assert(middleware@.skip(n as int) =~= Seq::<Middleware>::empty());
    }
    ProxyError::InvalidInstructionData
}

/// Copies an account list into an owned backing sequence.
fn copy_accounts(src: &Vec<AccountHandle>) -> (v: Vec<AccountHandle>)
    ensures
        v@ == src@,
{
    let mut v: Vec<AccountHandle> = Vec::new();
    let n: usize = src.len();
    let mut i: usize = 0;
    while i < n
        invariant
            i <= n,
            n == src@.len(),
            v@ == src@.subrange(0, i as int),
        decreases n - i,
    {
        v.push(src[i]);
        proof {
            assert(v@ =~= src@.subrange(0, i as int + 1));
        }
        i = i + 1;
    }
    proof {
        assert(v@ =~= src@);
    }
    v
}

/// Copies the accounts still visible past `from` places after the cursor.
fn remaining_accounts_from(ctx: &Context, from: usize) -> (v: Vec<AccountHandle>)
    requires
        ctx@.wf(),
        from <= ctx@.remaining_len(),
    ensures
        v@ == ctx@.accounts.skip(ctx@.cursor + from),
{
    let n: usize = ctx.remaining_len();
    let mut v: Vec<AccountHandle> = Vec::new();
    let mut i: usize = from;
    while i < n
        invariant
            from <= i <= n,
            ctx@.wf(),
            n == ctx@.remaining_len(),
            v@ == ctx@.accounts.subrange(ctx@.cursor + from, ctx@.cursor + i),
        decreases n - i,
    {
        v.push(ctx.account(i));
        proof {
            assert(v@ =~= ctx@.accounts.subrange(ctx@.cursor + from, ctx@.cursor + i + 1));
        }
        i = i + 1;
    }
    proof {
        assert(v@ =~= ctx@.accounts.skip(ctx@.cursor + from));
    }
    v
}

/// What running the chain yields: the header phase, the decode, the
/// dispatch fold, then the plan — or the error that aborted it.
pub open spec fn spec_run(
    mws: Seq<Middleware>,
    program_id: Pubkey,
    accounts: Seq<AccountHandle>,
    data: Seq<u8>,
) -> Result<ExecutionPlanView, ProxyError> {
    let total = spec_total_header_width(mws);
    if total > data.len() {
        Err(ProxyError::MalformedInstruction)
    } else {
        let captured = spec_captured(mws, data);
        match spec_decode(data.skip(total)) {
            Err(DecodeError::Malformed) => Err(ProxyError::MalformedInstruction),
            Err(DecodeError::UnknownOpcode) => Err(spec_fallback_error(captured)),
            Ok(ix) => {
                let cv0 = ContextView {
                    program_id,
                    accounts,
                    cursor: 0,
                    pre_instructions: Seq::<SideInstructionView>::empty(),
                    post_instructions: Seq::<SideInstructionView>::empty(),
                    seeds: Seq::<SignerSeeds>::empty(),
                };
                match spec_dispatch(captured, ix, cv0) {
                    Err(e) => Err(e),
                    Ok(cv) => {
                        if cv.remaining_len() < 1 {
                            Err(ProxyError::MissingRequiredAccounts)
                        } else {
                            Ok(ExecutionPlanView {
                                pre_instructions: cv.pre_instructions,
                                wrapped: WrappedCallView {
                                    program_id: cv.account(0).key,
                                    accounts: cv.accounts.skip(cv.cursor + 1),
                                    instruction: ix,
                                    seeds: cv.seeds,
                                },
                                post_instructions: cv.post_instructions,
                            })
                        }
                    },
                }
            },
        }
    }
}

/// The ordered execution engine: a fixed middleware list, constructed once
/// per call, run over the raw bytes and account list.
pub struct MarketProxy {
    pub middleware: Vec<Middleware>,
}

impl MarketProxy {
    /// A proxy with no middleware registered yet.
    pub fn new() -> (p: MarketProxy)
        ensures
            p.middleware@ == Seq::<Middleware>::empty(),
    {
        MarketProxy { middleware: Vec::new() }
    }

    /// Registers one more middleware; registration order is execution order.
    pub fn middleware(self, mw: Middleware) -> (p: MarketProxy)
        ensures
            p.middleware@ == self.middleware@.push(mw),
    {
        let mut p = self;
        p.middleware.push(mw);
        p
    }

    /// Runs the chain: header phase in registration order, decode, dispatch
    /// phase in registration order, then the plan whose pre-instructions
    /// run strictly before the wrapped call and whose post-instructions run
    /// strictly after.
    pub fn run(&self, program_id: Pubkey, accounts: &Vec<AccountHandle>, data: &Vec<u8>) -> (r:
        Result<ExecutionPlan, ProxyError>)
        ensures
            match r {
                Ok(p) => spec_run(self.middleware@, program_id, accounts@, data@)
                    == Ok::<ExecutionPlanView, ProxyError>(p@),
                Err(e) => spec_run(self.middleware@, program_id, accounts@, data@)
                    == Err::<ExecutionPlanView, ProxyError>(e),
            },
{
        let mut mws = copy_accounts_middleware(&self.middleware);
        let off = match header_phase(&mut mws, data) {
            Ok(off) => off,
            Err(e) => {
                return Err(e);
            },
        };
        match decode_instruction(data, off) {
            Err(DecodeError::Malformed) => {
                proof {
                    assert(data@.subrange(off as int, data@.len() as int)
                        =~= data@.skip(spec_total_header_width(self.middleware@)));
                }
                Err(ProxyError::MalformedInstruction)
            },
            Err(DecodeError::UnknownOpcode) => {
                proof {
                    assert(data@.subrange(off as int, data@.len() as int)
                        =~= data@.skip(spec_total_header_width(self.middleware@)));
                }
                let mut ctx = Context::new(program_id, copy_accounts(accounts));
                Err(fallback_phase(&mws, &mut ctx))
            },
            Ok(ix) => {
                proof {
                    assert(data@.subrange(off as int, data@.len() as int)
                        =~= data@.skip(spec_total_header_width(self.middleware@)));
                }
                let ctx = Context::new(program_id, copy_accounts(accounts));
                let ctx2 = match dispatch_phase(&mws, &ix, ctx) {
                    Ok(c) => c,
                    Err(e) => {
                        return Err(e);
                    },
                };
                if ctx2.remaining_len() < 1 {
                    return Err(ProxyError::MissingRequiredAccounts);
                }
                let wrapped = WrappedCall {
                    program_id: ctx2.account(0).key,
                    accounts: remaining_accounts_from(&ctx2, 1),
                    instruction: ix,
                    seeds: ctx2.seeds,
                };
                let plan = ExecutionPlan {
                    pre_instructions: ctx2.pre_instructions,
                    wrapped,
                    post_instructions: ctx2.post_instructions,
                };
                Ok(plan)
            },
        }
    }
}

/// Copies a middleware list so one registration can serve one run.
fn copy_accounts_middleware(src: &Vec<Middleware>) -> (v: Vec<Middleware>)
    ensures
        v@ == src@,
{
    let mut v: Vec<Middleware> = Vec::new();
    let n: usize = src.len();
    let mut i: usize = 0;
    while i < n
        invariant
            i <= n,
            n == src@.len(),
            v@ == src@.subrange(0, i as int),
        decreases n - i,
    {
        v.push(src[i]);
        proof {
            assert(v@ =~= src@.subrange(0, i as int + 1));
        }
        i = i + 1;
    }
    proof {
        assert(v@ =~= src@);
    }
    v
}

} // verus!
