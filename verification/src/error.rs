use vstd::prelude::*;

verus! {

/// The typed failures an operation can return.
///
/// Every failure leaves the ledger's observable state exactly as it was
/// before the call.
#[derive(Clone, Copy, Debug, PartialEq, Eq, Structural)]
pub enum ContractError {
    /// An amount argument of zero on a mutating operation.
    InvalidZeroAmount,
    /// A balance subtraction would underflow.
    InsufficientFunds,
    /// A supply subtraction would underflow during burn.
    SupplyUnderflow,
    /// Initialization with a total supply greater than the cap.
    SupplyExceedsCap,
    /// A mint would push the total supply above the cap.
    CannotExceedCap,
    /// A mint attempted by a caller other than the designated minter.
    Unauthorized,
    /// An address the host's validation rejected.
    InvalidAddress,
}

} // verus!
