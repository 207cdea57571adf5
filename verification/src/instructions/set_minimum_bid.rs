//! Changing the minimum bid.

use vstd::prelude::*;
use crate::error::AuctionError;
use crate::identity::Identity;
use crate::state::AuctionState;

verus! {

/// What a change of the minimum bid works on.
#[derive(Clone, Copy, Debug, PartialEq, Eq)]
pub struct SetMinimumBid {
    pub auction_state: AuctionState,
    /// The authenticated caller.
    pub agent: Identity,
}

impl SetMinimumBid {
    /// Why the change is rejected, if it is.
    pub open spec fn rejection(self) -> Option<AuctionError> {
        if self.auction_state.agent != self.agent {
            Some(AuctionError::OnlyAgent)
        } else {
            None
        }
    }

    /// The records after the floor was set to `minimum_bid`.
    pub open spec fn with_minimum(self, minimum_bid: u64) -> SetMinimumBid {
        SetMinimumBid {
            auction_state: AuctionState { minimum_bid, ..self.auction_state },
            ..self
        }
    }
}

/// Sets the floor to `minimum_bid`, whatever the existing bids lock: a bid
/// that is active below the new floor stays as it is, and the new floor
/// holds for every bid opened and every amount changed from now on. A
/// rejected change changes nothing.
pub fn handler(ctx: &mut SetMinimumBid, minimum_bid: u64) -> (r: Result<(), AuctionError>)
    ensures
        match r {
            Ok(()) => {
                &&& old(ctx).rejection() is None
                &&& *final(ctx) == old(ctx).with_minimum(minimum_bid)
            },
            Err(e) => {
                &&& old(ctx).rejection() == Some(e)
                &&& *final(ctx) == *old(ctx)
            },
        },
{
    if ctx.auction_state.agent != ctx.agent {
        return Err(AuctionError::OnlyAgent);
    }
    ctx.auction_state.minimum_bid = minimum_bid;
    Ok(())
}

} // verus!
