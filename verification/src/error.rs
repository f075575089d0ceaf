//! The failures an operation of the contract can surface.

use vstd::prelude::*;

verus! {

/// Every failure is terminal for the operation that raised it; the contract
/// performs no local recovery.
#[derive(Clone, Copy, Debug, PartialEq, Eq, Structural)]
pub enum ContractError {
    /// The payment attached to a dispatch was not strictly positive.
    InvalidPayment,
    /// The gas service or the gateway refused its call; the whole dispatch
    /// is undone.
    ExternalCallFailure,
    /// The received-message slot was read before any message arrived.
    UninitializedRead,
}

} // verus!
