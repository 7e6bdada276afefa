use vstd::prelude::*;

verus! {

/// Why a request on a vault was rejected.
#[derive(Clone, Copy, Debug, PartialEq, Eq, Structural)]
pub enum CustomError {
    /// The observed price is below the vault's target price.
    TargetNotReached,
    /// The caller is not the vault's owner.
    Unauthorized,
    /// The custodial account holds less than the transfers ask for.
    InsufficientFunds,
    /// A vault is already recorded for this owner.
    AlreadyExists,
    /// No vault is recorded for this owner.
    NotFound,
}

} // verus!
