//! Opening a bid.

use vstd::prelude::*;
use crate::error::AuctionError;
use crate::event::BidPlaced;
use crate::identity::Identity;
use crate::ledger::{Authority, Transfer};
use crate::state::{AuctionState, Bid};
use crate::USDC_DECIMALS;

verus! {

/// What the opening of a bid works on.
#[derive(Clone, Copy, Debug, PartialEq, Eq)]
pub struct PlaceBid {
    pub auction_state: AuctionState,
    /// The fresh record that becomes the bidder's bid. What it holds before
    /// the operation is of no account.
    pub bid: Bid,
    /// The bidder's own balance, from which the bid is funded.
    pub bidder_usdc: Identity,
    /// The authenticated caller.
    pub bidder: Identity,
}

impl PlaceBid {
    /// Why a bid of `amount` is rejected, if it is. The first reason that
    /// applies is the one reported.
    pub open spec fn rejection(self, amount: u64) -> Option<AuctionError> {
        if amount < self.auction_state.minimum_bid {
            Some(AuctionError::BidTooLow)
        } else if self.auction_state.active_bid_count == u64::MAX {
            Some(AuctionError::ArithmeticOverflow)
        } else {
            None
        }
    }

    /// The movement of funds that belongs to an accepted bid: `amount` from
    /// the bidder's balance into the pooled balance, on the bidder's own
    /// authority.
    pub open spec fn movement(self, amount: u64) -> Transfer {
        Transfer {
            from: self.bidder_usdc,
            to: self.auction_state.escrow,
            authority: Authority::Party(self.bidder),
            mint: self.auction_state.usdc_mint,
            amount,
            decimals: USDC_DECIMALS,
        }
    }

    /// The records after a bid of `amount` was accepted at time `now`: the bid
    /// is active, belongs to the caller and locks `amount`, and one more bid
    /// is counted as active.
    pub open spec fn placed(self, amount: u64, now: i64) -> PlaceBid {
        PlaceBid {
            auction_state: AuctionState {
                active_bid_count: (self.auction_state.active_bid_count + 1) as u64,
                ..self.auction_state
            },
            bid: Bid {
                bidder: self.bidder,
                amount,
                created_at: now,
                updated_at: now,
                active: true,
            },
            ..self
        }
    }
}

/// Opens a bid of `amount` for the caller at time `now`. A rejected bid
/// changes nothing.
pub fn handler(ctx: &mut PlaceBid, amount: u64, now: i64) -> (r: Result<
    (Transfer, BidPlaced),
    AuctionError,
>)
    ensures
        match r {
            Ok((movement, event)) => {
                &&& old(ctx).rejection(amount) is None
                &&& *final(ctx) == old(ctx).placed(amount, now)
                &&& movement == old(ctx).movement(amount)
                &&& event.bidder == old(ctx).bidder
                &&& event.amount == amount
            },
            Err(e) => {
                &&& old(ctx).rejection(amount) == Some(e)
                &&& *final(ctx) == *old(ctx)
            },
        },
{
    if amount < ctx.auction_state.minimum_bid {
        return Err(AuctionError::BidTooLow);
    }
    let count: u64 = match ctx.auction_state.active_bid_count.checked_add(1) {
        Some(count) => count,
        None => {
            return Err(AuctionError::ArithmeticOverflow);
        },
    };
    let movement = Transfer {
        from: ctx.bidder_usdc,
        to: ctx.auction_state.escrow,
        authority: Authority::Party(ctx.bidder),
        mint: ctx.auction_state.usdc_mint,
        amount,
        decimals: USDC_DECIMALS,
    };
    ctx.bid = Bid { bidder: ctx.bidder, amount, created_at: now, updated_at: now, active: true };
    ctx.auction_state.active_bid_count = count;
    Ok((movement, BidPlaced { bidder: ctx.bidder, amount }))
}

} // verus!
