//! The error kinds the gateway surfaces at a request boundary.

use vstd::prelude::*;

verus! {

/// One kind per way a request can fail. Internal detail is never carried:
/// callers see only the kind and its status code.
#[derive(Debug, Clone, Copy, PartialEq, Eq, Structural)]
pub enum GatewayError {
    /// Bad, missing, expired or mismatched identity token.
    Unauthorized,
    /// Authenticated, but an admin-only operation was asked for.
    Forbidden,
    /// No free port in the pool.
    PoolExhausted,
    /// The terminal subprocess could not be started.
    SpawnFailed,
    /// The terminal subprocess never became reachable.
    ReadinessTimeout,
    /// The bouncer refused to create an account or network.
    ProvisionFailed,
    /// Anything else: I/O, protocol, proxy dial, or a refused request.
    Internal,
}

/// The HTTP status that stands for each kind.
pub open spec fn status_of(e: GatewayError) -> u16 {
    match e {
        GatewayError::Unauthorized => 401,
        GatewayError::Forbidden => 403,
        _ => 500,
    }
}

impl GatewayError {
    /// The text shown to the caller; internal detail is never included.
    pub fn public_message(&self) -> (r: &'static str)
        ensures
            *self == GatewayError::Forbidden ==> r@ == "Admin access required"@,
            *self == GatewayError::Unauthorized ==> r@ == "Invalid or missing access token"@,
            *self != GatewayError::Forbidden && *self != GatewayError::Unauthorized ==> r@
                == "Internal server error"@,
    {
        match self {
            GatewayError::Unauthorized => "Invalid or missing access token",
            GatewayError::Forbidden => "Admin access required",
            _ => "Internal server error",
        }
    }

    /// The HTTP status that the kind maps to.
    pub fn status_code(&self) -> (r: u16)
        ensures
            r == status_of(*self),
    {
        match self {
            GatewayError::Unauthorized => 401,
            GatewayError::Forbidden => 403,
            _ => 500,
        }
    }
}

} // verus!
