use vstd::prelude::*;

verus! {

/// The failure signals a ledger operation can surface. The host runtime
/// detects the same conditions before it moves any funds; the ledger states
/// here exactly when each one is reported.
#[derive(Clone, Copy, Debug, PartialEq, Eq, Structural)]
pub enum CrowdsaleError {
    /// The buyer's lamport balance does not cover the price of the purchase.
    InsufficientFunds,
    /// A withdrawal was invoked by an account other than the designated owner.
    InvalidOwner,
    /// A balance would exceed what a `u64` can hold.
    BalanceOverflow,
}

} // verus!
