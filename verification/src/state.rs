//! The records that the auction keeps: one auction state, and one bid per
//! bidder.

use vstd::prelude::*;
use crate::identity::Identity;

verus! {

/// The configuration and the counters of one auction.
#[derive(Clone, Copy, Debug, PartialEq, Eq)]
pub struct AuctionState {
    /// Who may settle the auction and change its configuration.
    pub agent: Identity,
    /// The asset in which bids are locked.
    pub usdc_mint: Identity,
    /// The balance that receives settled funds.
    pub treasury: Identity,
    /// The pooled balance that holds all locked funds. Only the auction
    /// itself, as custodian, has authority over it.
    pub escrow: Identity,
    /// The least amount that an active bid may be opened with or lowered to.
    pub minimum_bid: u64,
    /// The number of bids that are active.
    pub active_bid_count: u64,
}

/// The bid of one bidder.
#[derive(Clone, Copy, Debug, PartialEq, Eq)]
pub struct Bid {
    /// The owner of the bid; never changes.
    pub bidder: Identity,
    /// The amount that the bid has locked in the pooled balance.
    pub amount: u64,
    /// When the bid was opened.
    pub created_at: i64,
    /// When the amount last changed.
    pub updated_at: i64,
    /// True while the funds are locked; false once withdrawn or settled.
    pub active: bool,
}

} // verus!
