//! Error taxonomy.
//!
//! `ProxyError` is the failure classification of the dispatch pipeline and of
//! the model runtime: every failure of a top-level call is one of its
//! variants, and every failure aborts the whole call atomically.
//!
//! `ErrorCode` is the failure classification of the liquidity-pool
//! collaborator's own operations (deposits, pass upkeep, token movements).

use vstd::prelude::*;

verus! {

/// A failure of the top-level call.  Every variant aborts the entire call;
/// nothing is retried and nothing is partially applied.
#[derive(Clone, Copy, PartialEq, Eq, Structural, Debug)]
pub enum ProxyError {
    /// Header, opcode or payload bytes could not be decoded.
    MalformedInstruction,
    /// A middleware's expected accounts are absent or misordered.
    MissingRequiredAccounts,
    /// A signature check failed, locally or at the custody boundary.
    UnauthorizedSigner,
    /// The credential gate found no valid credential for the holder.
    CredentialRejected,
    /// The holder's pass exists but is not active.
    PassInactive,
    /// The holder's pass lacks the capability the opcode needs.
    PassCapabilityMissing,
    /// Overflow, underflow or zero division in a quantity computation.
    ArithmeticFault,
    /// A queued side-instruction or the wrapped call itself failed.
    NestedCallFailure,
    /// No middleware matched the opcode and none handled the fallback.
    InvalidInstructionData,
}

/// A failure of a liquidity-pool operation.
#[derive(Clone, Copy, PartialEq, Eq, Structural, Debug)]
pub enum ErrorCode {
    /// Not enough liquidity.
    NotEnoughLiquidity,
    /// The signer is not authorized to use this instruction.
    UnauthorizedSigner,
    /// The pass is inactive at the moment.
    CredixPassInactive,
    /// The pass lacks the capability the operation needs.
    CredixPassInvalid,
    /// Overflow occurred.
    Overflow,
    /// Underflow occurred.
    Underflow,
    /// Tried to divide by zero.
    ZeroDivision,
    /// A ratio's denominator can't be zero.
    ZeroDenominator,
    /// Not enough pool-share tokens.
    NotEnoughLPTokens,
    /// Not enough base tokens.
    NotEnoughBaseTokens,
}

} // verus!
