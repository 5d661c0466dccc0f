//! The typed errors of the registry.

use vstd::prelude::*;

verus! {

/// Every way a call into the registry can fail.  Each entry point's contract
/// says exactly which inputs produce which variant.
#[derive(Debug, Clone, PartialEq, Eq)]
pub enum ContractError {
    /// The caller of a configuration update is not the configured owner.
    Unauthorized,
    /// The calling account identifier is empty or not syntactically valid.
    InvalidCaller,
    /// The attached payment is not exactly one entry of exactly the
    /// configured fee; `received` is 0 when the shape is wrong.
    InvalidPayment { expected: u128, received: u128 },
    /// The payment entry is not in the fee denomination.
    WrongDenom,
    /// A token with the requested symbol is already registered.
    SymbolExists,
    /// Name or symbol is blank after trimming, or the supply is zero.
    InvalidTokenParams,
    /// The delegated deployment reported failure.
    DeploymentFailed { reason: String },
    /// A continuation arrived with an unrecognized correlation tag.
    UnknownContinuation,
    /// The queried token symbol is not registered.
    NotFound,
    /// An internal invariant does not hold (bad stored configuration, or a
    /// continuation with nothing to finalize).
    Internal,
}

} // verus!
