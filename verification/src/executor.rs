//! The model runtime that executes one call plan as a single atomic unit.
//!
//! The ledger holds exactly the collaborator state the proxy's guarantees
//! speak about: whether the signing authority exists and under which bump
//! it derives, the caller's pooled-liquidity token account, and the wrapped
//! venue's order record.  [`run_transaction`] runs a plan strictly in order
//! — pre-instructions, the wrapped call, post-instructions — and on any
//! failure the remainder never runs and none of the effects are observable:
//! the ledger comes back exactly as it went in.

use vstd::prelude::*;

use crate::errors::ProxyError;
use crate::instruction::{DexInstruction, Side};
use crate::middleware::{FREEZE_IX_TAG, THAW_IX_TAG};
use crate::proxy::{
    CallPlan, CallPlanView, SeedTag, SideInstruction, SideInstructionView, SignerSeeds,
    WrappedCall, WrappedCallView,
};
use crate::token::TokenAccount;

verus! {

/// One order the wrapped venue has recorded.
#[derive(Clone, Copy, PartialEq, Eq, Structural, Debug)]
pub struct OrderRecord {
    pub side: Side,
    pub limit_price: u64,
    pub max_qty: u64,
    pub client_order_id: u64,
}

/// The modelled external state one top-level call touches.
pub struct Ledger {
    /// The bump under which the proxy's signing authority actually derives.
    pub canonical_bump: u8,
    /// Whether the bootstrap path has created the authority account.
    pub authority_created: bool,
    /// The caller's pooled-liquidity token account.
    pub pool_token: TokenAccount,
    /// Whether the wrapped venue currently accepts calls.
    pub venue_accepting: bool,
    /// The wrapped venue's order record.
    pub orders: Vec<OrderRecord>,
}

/// Mathematical image of a [`Ledger`].
pub ghost struct LedgerView {
    pub canonical_bump: u8,
    pub authority_created: bool,
    pub pool_token: TokenAccount,
    pub venue_accepting: bool,
    pub orders: Seq<OrderRecord>,
}

impl View for Ledger {
    type V = LedgerView;

    open spec fn view(&self) -> LedgerView {
        LedgerView {
            canonical_bump: self.canonical_bump,
            authority_created: self.authority_created,
            pool_token: self.pool_token,
            venue_accepting: self.venue_accepting,
            orders: self.orders@,
        }
    }
}

/// Whether a seed list carries the signing-authority seed set with the
/// canonical bump — the one set that authenticates the derived authority.
pub open spec fn spec_has_authority_seeds(seeds: Seq<SignerSeeds>, bump: u8) -> bool {
    exists|i: int|
        0 <= i < seeds.len() && seeds[i] == (SignerSeeds { tag: SeedTag::SigningAuthority, bump })
}

/// What one side-instruction does to the ledger.  The custody boundary
/// verifies the transient signer: the seed set must derive the existing
/// authority, so a wrong bump fails here, not earlier.  A thaw leaves an
/// unfrozen account unfrozen and a freeze leaves a frozen one frozen.
pub open spec fn spec_apply_side(l: LedgerView, ix: SideInstructionView) -> Result<
    LedgerView,
    ProxyError,
> {
    if ix.data != seq![THAW_IX_TAG] && ix.data != seq![FREEZE_IX_TAG] {
        Err(ProxyError::NestedCallFailure)
    } else if !l.authority_created || !spec_has_authority_seeds(ix.seeds, l.canonical_bump) {
        Err(ProxyError::UnauthorizedSigner)
    } else if ix.accounts.len() != 12 || ix.accounts[1].key != l.pool_token.key {
        Err(ProxyError::NestedCallFailure)
    } else {
        Ok(LedgerView {
            pool_token: TokenAccount { frozen: ix.data == seq![FREEZE_IX_TAG], ..l.pool_token },
            ..l
        })
    }
}

/// Folds a queue of side-instructions over the ledger, in push order,
/// stopping at the first failure.
pub open spec fn spec_apply_sides(l: LedgerView, s: Seq<SideInstructionView>) -> Result<
    LedgerView,
    ProxyError,
>
    decreases s.len(),
{
    if s.len() == 0 {
        Ok(l)
    } else {
        match spec_apply_side(l, s[0]) {
            Err(e) => Err(e),
            Ok(l2) => spec_apply_sides(l2, s.skip(1)),
        }
    }
}

/// The order record a new-order instruction leaves with the venue.
pub open spec fn spec_order_record(
    side: Side,
    limit_price: u64,
    max_qty: u64,
    client_order_id: u64,
) -> OrderRecord {
    OrderRecord { side, limit_price, max_qty, client_order_id }
}

/// What the wrapped venue call does to the ledger: the venue's own matching
/// logic stays external, so the model records a placed order and otherwise
/// forwards, failing whenever the venue rejects the call.
pub open spec fn spec_apply_wrapped(l: LedgerView, w: WrappedCallView) -> Result<
    LedgerView,
    ProxyError,
> {
    if !l.venue_accepting {
        Err(ProxyError::NestedCallFailure)
    } else {
        match w.instruction {
            DexInstruction::NewOrderV3 { side, limit_price, max_qty, client_order_id } => Ok(
                LedgerView {
                    orders: l.orders.push(
                        spec_order_record(side, limit_price, max_qty, client_order_id),
                    ),
                    ..l
                },
            ),
            _ => Ok(l),
        }
    }
}

/// One atomic top-level call over the ledger.  The bootstrap path creates
/// the authority exactly once, and only under the canonical bump; a proxied
/// plan runs pre-instructions, the wrapped call, then post-instructions, in
/// order.  Any failure leaves the ledger exactly as it was.
pub open spec fn spec_run_transaction(l: LedgerView, plan: CallPlanView) -> (Result<
    (),
    ProxyError,
>, LedgerView) {
    match plan {
        CallPlanView::Bootstrap { bump } => {
            if l.authority_created {
                (Err(ProxyError::NestedCallFailure), l)
            } else if bump != l.canonical_bump {
                (Err(ProxyError::UnauthorizedSigner), l)
            } else {
                (Ok(()), LedgerView { authority_created: true, ..l })
            }
        },
        CallPlanView::Proxied(p) => {
            match spec_apply_sides(l, p.pre_instructions) {
                Err(e) => (Err(e), l),
                Ok(l1) => {
                    match spec_apply_wrapped(l1, p.wrapped) {
                        Err(e) => (Err(e), l),
                        Ok(l2) => {
                            match spec_apply_sides(l2, p.post_instructions) {
                                Err(e) => (Err(e), l),
                                Ok(l3) => (Ok(()), l3),
                            }
                        },
                    }
                },
            }
        },
    }
}

/// A failed call changes nothing: whatever the plan, an `Err` outcome hands
/// the ledger back exactly as it went in.
pub proof fn lemma_failed_call_leaves_ledger_unchanged(l: LedgerView, plan: CallPlanView)
    ensures
        spec_run_transaction(l, plan).0 is Err ==> spec_run_transaction(l, plan).1 == l,
{
}

/// A successful queue of side-instructions whose last entry is a freeze
/// leaves the pool token account frozen, whatever ran before.
pub proof fn lemma_sides_end_frozen(l: LedgerView, s: Seq<SideInstructionView>)
    requires
        spec_apply_sides(l, s) is Ok,
        s.len() > 0,
        s.last().data == seq![FREEZE_IX_TAG],
    ensures
        spec_apply_sides(l, s)->Ok_0.pool_token.frozen,
    decreases s.len(),
{
    let l2 = spec_apply_side(l, s[0])->Ok_0;
    if s.len() == 1 {
        assert(s.skip(1) =~= Seq::<SideInstructionView>::empty());
    } else {
        assert(s.skip(1).last() == s.last());
        lemma_sides_end_frozen(l2, s.skip(1));
    }
}

/// Looks for the signing-authority seed set with the given bump.
fn has_authority_seeds(seeds: &Vec<SignerSeeds>, bump: u8) -> (r: bool)
    ensures
        r == spec_has_authority_seeds(seeds@, bump),
{
    let n: usize = seeds.len();
    let mut i: usize = 0;
    while i < n
        invariant
            i <= n,
            n == seeds@.len(),
            forall|k: int| 0 <= k < i ==> seeds@[k]
                != (SignerSeeds { tag: SeedTag::SigningAuthority, bump }),
        decreases n - i,
    {
        let s = seeds[i];
        if matches!(s.tag, SeedTag::SigningAuthority) && s.bump == bump {
            assert(seeds@[i as int] == (SignerSeeds { tag: SeedTag::SigningAuthority, bump }));
            return true;
        }
        i = i + 1;
    }
    false
}

/// Runs one queued side-instruction against the ledger, as the custody
/// boundary would: signature check first, then the account shape, then the
/// idempotent freeze or thaw.
fn apply_side_instruction(l: &mut Ledger, ix: &SideInstruction) -> (r: Result<(), ProxyError>)
    ensures
        match r {
            Ok(()) => spec_apply_side(old(l)@, ix@) == Ok::<LedgerView, ProxyError>(final(l)@),
            Err(e) => spec_apply_side(old(l)@, ix@) == Err::<LedgerView, ProxyError>(e)
                && final(l)@ == old(l)@,
        },
{
    let tag_ok_thaw = ix.data.len() == 1 && ix.data[0] == THAW_IX_TAG;
    let tag_ok_freeze = ix.data.len() == 1 && ix.data[0] == FREEZE_IX_TAG;
    proof {
        if tag_ok_thaw {
            assert(ix.data@ =~= seq![THAW_IX_TAG]);
        } else {
            assert(ix.data@ != seq![THAW_IX_TAG]) by {
                if ix.data@ == seq![THAW_IX_TAG] {
                    assert(ix.data@.len() == 1 && ix.data@[0] == THAW_IX_TAG);
                }
            }
        }
        if tag_ok_freeze {
            assert(ix.data@ =~= seq![FREEZE_IX_TAG]);
        } else {
            assert(ix.data@ != seq![FREEZE_IX_TAG]) by {
                if ix.data@ == seq![FREEZE_IX_TAG] {
                    assert(ix.data@.len() == 1 && ix.data@[0] == FREEZE_IX_TAG);
                }
            }
        }
    }
    if !tag_ok_thaw && !tag_ok_freeze {
        return Err(ProxyError::NestedCallFailure);
    }
    if !l.authority_created || !has_authority_seeds(&ix.seeds, l.canonical_bump) {
        return Err(ProxyError::UnauthorizedSigner);
    }
    if ix.accounts.len() != 12 || !(ix.accounts[1].key.value == l.pool_token.key.value) {
        return Err(ProxyError::NestedCallFailure);
    }
    l.pool_token.frozen = tag_ok_freeze;
    Ok(())
}

/// Runs the wrapped venue call against the ledger.
fn apply_wrapped(l: &mut Ledger, w: &WrappedCall) -> (r: Result<(), ProxyError>)
    ensures
        match r {
            Ok(()) => spec_apply_wrapped(old(l)@, w@) == Ok::<LedgerView, ProxyError>(final(l)@),
            Err(e) => spec_apply_wrapped(old(l)@, w@) == Err::<LedgerView, ProxyError>(e)
                && final(l)@ == old(l)@,
        },
{
    if !l.venue_accepting {
        return Err(ProxyError::NestedCallFailure);
    }
    match w.instruction {
        DexInstruction::NewOrderV3 { side, limit_price, max_qty, client_order_id } => {
            l.orders.push(OrderRecord { side, limit_price, max_qty, client_order_id });
            Ok(())
        },
        _ => Ok(()),
    }
}

/// Copies the ledger so a failing transaction can hand the original back.
pub fn clone_ledger(l: &Ledger) -> (c: Ledger)
    ensures
        c@ == l@,
{
    let mut orders: Vec<OrderRecord> = Vec::new();
    let n: usize = l.orders.len();
    let mut i: usize = 0;
    while i < n
        invariant
            i <= n,
            n == l.orders@.len(),
            orders@ == l.orders@.subrange(0, i as int),
        decreases n - i,
    {
        orders.push(l.orders[i]);
        proof {
            assert(orders@ =~= l.orders@.subrange(0, i as int + 1));
        }
        i = i + 1;
    }
    proof {
        assert(orders@ =~= l.orders@);
    }
    Ledger {
        canonical_bump: l.canonical_bump,
        authority_created: l.authority_created,
        pool_token: l.pool_token,
        venue_accepting: l.venue_accepting,
        orders,
    }
}

/// Runs one call plan as one atomic unit: every queued pre-instruction in
/// push order, the wrapped call, every queued post-instruction in push
/// order, each at most once; the first failure aborts the remainder and
/// hands back the ledger exactly as it went in.
pub fn run_transaction(l: &Ledger, plan: &CallPlan) -> (r: (Result<(), ProxyError>, Ledger))
    ensures
        r.0 == spec_run_transaction(l@, plan@).0,
        r.1@ == spec_run_transaction(l@, plan@).1,
{
    match plan {
        CallPlan::Bootstrap { bump } => {
            if l.authority_created {
                (Err(ProxyError::NestedCallFailure), clone_ledger(l))
            } else if *bump != l.canonical_bump {
                (Err(ProxyError::UnauthorizedSigner), clone_ledger(l))
            } else {
                let mut work = clone_ledger(l);
                work.authority_created = true;
                (Ok(()), work)
            }
        },
        CallPlan::Proxied(p) => {
            let mut work = clone_ledger(l);
            let npre: usize = p.pre_instructions.len();
            let ghost pres = p@.pre_instructions;
            let mut i: usize = 0;
            proof {
                assert(pres.skip(0) =~= pres);
            }
            while i < npre
                invariant
                    i <= npre,
                    npre == pres.len(),
                    pres == p@.pre_instructions,
                    plan@ == CallPlanView::Proxied(p@),
                    p@.pre_instructions == p.pre_instructions@.map_values(
                        |x: SideInstruction| x@,
                    ),
                    spec_apply_sides(l@, pres) == spec_apply_sides(work@, pres.skip(i as int)),
                decreases npre - i,
            {
                let r = apply_side_instruction(&mut work, &p.pre_instructions[i]);
                proof {
                    assert(pres.skip(i as int)[0] == pres[i as int]);
                    assert(pres.skip(i as int).skip(1) =~= pres.skip(i as int + 1));
                }
                if let Err(e) = r {
                    return (Err(e), clone_ledger(l));
                }
                i = i + 1;
            }
            proof {
                assert(pres.skip(npre as int) =~= Seq::<SideInstructionView>::empty());
            }
            let ghost l1 = work@;
            if let Err(e) = apply_wrapped(&mut work, &p.wrapped) {
                return (Err(e), clone_ledger(l));
            }
            let npost: usize = p.post_instructions.len();
            let ghost posts = p@.post_instructions;
            let ghost l2 = work@;
            let mut j: usize = 0;
            proof {
                assert(posts.skip(0) =~= posts);
            }
            while j < npost
                invariant
                    j <= npost,
                    npost == posts.len(),
                    posts == p@.post_instructions,
                    plan@ == CallPlanView::Proxied(p@),
                    p@.post_instructions == p.post_instructions@.map_values(
                        |x: SideInstruction| x@,
                    ),
                    spec_apply_sides(l@, p@.pre_instructions) == Ok::<LedgerView, ProxyError>(l1),
                    spec_apply_wrapped(l1, p@.wrapped) == Ok::<LedgerView, ProxyError>(l2),
                    spec_apply_sides(l2, posts) == spec_apply_sides(work@, posts.skip(j as int)),
                decreases npost - j,
            {
                let r = apply_side_instruction(&mut work, &p.post_instructions[j]);
                proof {
                    assert(posts.skip(j as int)[0] == posts[j as int]);
                    assert(posts.skip(j as int).skip(1) =~= posts.skip(j as int + 1));
                }
                if let Err(e) = r {
                    return (Err(e), clone_ledger(l));
                }
                j = j + 1;
            }
            proof {
                assert(posts.skip(npost as int) =~= Seq::<SideInstructionView>::empty());
            }
            (Ok(()), work)
        },
    }
}

} // verus!
