//! Why a request was turned down.

use vstd::prelude::*;

verus! {

/// The reasons for which the marketplace rejects a request. A rejected
/// request leaves the store as it was and emits nothing.
#[derive(Clone, Copy, Debug, PartialEq, Eq, Structural)]
pub enum ContractError {
    /// The caller has no right to the action.
    Unauthorized {},
    /// No order carries this number.
    OrderNotFound { order_id: u64 },
    /// The order is no longer pending.
    InvalidState { order_id: u64 },
    /// The tendered funds are not exactly the order's price.
    InsufficientFunds { order_id: u64 },
    /// An identifier is empty or the price is not positive.
    MalformedInput {},
}

} // verus!
