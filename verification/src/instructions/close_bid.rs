//! Closing a bid: reclaiming the record of a withdrawn or settled bid.

use vstd::prelude::*;
use crate::error::AuctionError;
use crate::identity::Identity;
use crate::state::Bid;

verus! {

/// What the closing of a bid works on.
#[derive(Clone, Copy, Debug, PartialEq, Eq)]
pub struct CloseBid {
    /// The bid to close.
    pub bid: Bid,
    /// The authenticated caller.
    pub bidder: Identity,
}

impl CloseBid {
    /// Why the closing is rejected, if it is. The first reason that applies
    /// is the one reported.
    pub open spec fn rejection(self) -> Option<AuctionError> {
        if self.bid.active {
            Some(AuctionError::BidStillActive)
        } else if self.bid.bidder != self.bidder {
            Some(AuctionError::WrongBidder)
        } else {
            None
        }
    }
}

/// Decides whether the caller may close the bid. On `Ok` the caller of this
/// function destroys the record and refunds its storage deposit to the
/// bidder. No funds of the auctioned asset move.
pub fn handler(ctx: &CloseBid) -> (r: Result<(), AuctionError>)
    ensures
        match r {
            Ok(()) => ctx.rejection() is None,
            Err(e) => ctx.rejection() == Some(e),
        },
{
    if ctx.bid.active {
        return Err(AuctionError::BidStillActive);
    }
    if ctx.bid.bidder != ctx.bidder {
        return Err(AuctionError::WrongBidder);
    }
    Ok(())
}

} // verus!
