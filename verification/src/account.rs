//! Account handles as the proxy sees them: an address, a signer flag and a
//! writability flag.  The pipeline never looks inside an account's data; it
//! only reorders, marks and slices handles, so a handle is a plain value.

use vstd::prelude::*;

verus! {

/// An account address.  The ledger identifies every account, program and
/// mint by such an address; the pipeline only ever compares addresses for
/// equality, so a single machine word stands for the full address here.
#[derive(Clone, Copy, PartialEq, Eq, Structural, Debug)]
pub struct Pubkey {
    pub value: u64,
}

/// One entry of the ordered account list that accompanies every call:
/// the address plus the two flags the runtime attaches to it.
#[derive(Clone, Copy, PartialEq, Eq, Structural, Debug)]
pub struct AccountHandle {
    pub key: Pubkey,
    pub is_signer: bool,
    pub is_writable: bool,
}

} // verus!
