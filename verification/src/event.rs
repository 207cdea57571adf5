//! Notifications that the auction hands to its caller for delivery.

use vstd::prelude::*;
use crate::identity::Identity;

verus! {

/// A bidder opened a bid and locked `amount`.
#[derive(Clone, Copy, Debug, PartialEq, Eq)]
pub struct BidPlaced {
    pub bidder: Identity,
    pub amount: u64,
}

/// A bidder changed a bid, which now locks `new_amount`.
#[derive(Clone, Copy, Debug, PartialEq, Eq)]
pub struct BidUpdated {
    pub bidder: Identity,
    pub new_amount: u64,
}

/// A bidder withdrew a bid and took back `amount`.
#[derive(Clone, Copy, Debug, PartialEq, Eq)]
pub struct BidWithdrawn {
    pub bidder: Identity,
    pub amount: u64,
}

/// The agent settled the auction on the bid of `winner`; `amount` went to
/// the treasury.
#[derive(Clone, Copy, Debug, PartialEq, Eq)]
pub struct BidSettled {
    pub winner: Identity,
    pub amount: u64,
}

} // verus!
