//! The credential-verification collaborator's interface: a holder's
//! externally issued gateway credential, checked before every fund-movement
//! operation.  Absence of a valid credential is rejection, never implicit
//! approval.

use vstd::prelude::*;

use crate::account::Pubkey;

verus! {

/// A holder's gateway credential, as plain values: whom it was issued to,
/// under which gatekeeper network, and whether it is still active.  Expiry
/// is deliberately not checked here, matching the proxy's configuration.
#[derive(Clone, Copy, PartialEq, Eq, Structural, Debug)]
pub struct GatewayToken {
    pub holder: Pubkey,
    pub gatekeeper_network: Pubkey,
    pub active: bool,
}

/// Why a credential check failed.
#[derive(Clone, Copy, PartialEq, Eq, Structural, Debug)]
pub enum GatewayError {
    /// The credential was issued to someone else.
    InvalidOwner,
    /// The credential belongs to a different gatekeeper network.
    IncorrectGatekeeper,
    /// The credential has been revoked or frozen.
    TokenRevoked,
}

/// The credential check, exactly: the credential must name the user as its
/// holder, belong to the expected gatekeeper network, and still be active.
pub open spec fn spec_civic_check(user: Pubkey, token: GatewayToken, gatekeeper: Pubkey)
    -> Result<(), GatewayError> {
    if token.holder != user {
        Err(GatewayError::InvalidOwner)
    } else if token.gatekeeper_network != gatekeeper {
        Err(GatewayError::IncorrectGatekeeper)
    } else if !token.active {
        Err(GatewayError::TokenRevoked)
    } else {
        Ok(())
    }
}

/// Verifies a holder's gateway credential before a fund-movement operation.
pub fn civic_check(user: Pubkey, gateway_token: &GatewayToken, gatekeeper: Pubkey) -> (r: Result<
    (),
    GatewayError,
>)
    ensures
        r == spec_civic_check(user, *gateway_token, gatekeeper),
{
    if gateway_token.holder != user {
        Err(GatewayError::InvalidOwner)
    } else if gateway_token.gatekeeper_network != gatekeeper {
        Err(GatewayError::IncorrectGatekeeper)
    } else if !gateway_token.active {
        Err(GatewayError::TokenRevoked)
    } else {
        Ok(())
    }
}

} // verus!
