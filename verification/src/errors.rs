use vstd::prelude::*;

verus! {

/// Why a pool operation was rejected.
#[derive(Clone, Copy, Debug, PartialEq, Eq, Structural)]
pub enum AmmError {
    /// The pool's emergency-pause flag is set.
    PoolLocked,
    /// The amount of LP tokens to burn is zero.
    InvalidAmount,
    /// The fixed-point curve computation has no valid result.
    ArithmeticFailure,
    /// The credential presented does not match the authority of the account to be changed.
    Unauthorized,
    /// A debit asks for more than the account holds.
    InsufficientFunds,
}

} // verus!
