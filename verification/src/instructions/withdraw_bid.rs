//! Withdrawing a bid: all its locked funds go back to the bidder.

use vstd::prelude::*;
use crate::error::AuctionError;
use crate::event::BidWithdrawn;
use crate::identity::Identity;
use crate::ledger::{Authority, Transfer};
use crate::state::{AuctionState, Bid};
use crate::USDC_DECIMALS;

verus! {

/// What a withdrawal works on.
#[derive(Clone, Copy, Debug, PartialEq, Eq)]
pub struct WithdrawBid {
    pub auction_state: AuctionState,
    /// The bid to withdraw.
    pub bid: Bid,
    /// The bidder's own balance, to which the funds return.
    pub bidder_usdc: Identity,
    /// The authenticated caller.
    pub bidder: Identity,
}

impl WithdrawBid {
    /// Why the withdrawal is rejected, if it is. The first reason that
    /// applies is the one reported.
    pub open spec fn rejection(self) -> Option<AuctionError> {
        if self.bid.bidder != self.bidder {
            Some(AuctionError::WrongBidder)
        } else if !self.bid.active {
            Some(AuctionError::BidNotActive)
        } else if self.auction_state.active_bid_count == 0 {
            Some(AuctionError::ArithmeticOverflow)
        } else {
            None
        }
    }

    /// The movement of funds that belongs to an accepted withdrawal: the
    /// bid's full amount out of the pooled balance, on the custodian's
    /// authority.
    pub open spec fn movement(self) -> Transfer {
        Transfer {
            from: self.auction_state.escrow,
            to: self.bidder_usdc,
            authority: Authority::Custodian,
            mint: self.auction_state.usdc_mint,
            amount: self.bid.amount,
            decimals: USDC_DECIMALS,
        }
    }

    /// The records after an accepted withdrawal: the bid is inactive and
    /// keeps its amount on record, and one bid fewer is counted as active.
    pub open spec fn withdrawn(self) -> WithdrawBid {
        WithdrawBid {
            auction_state: AuctionState {
                active_bid_count: (self.auction_state.active_bid_count - 1) as u64,
                ..self.auction_state
            },
            bid: Bid { active: false, ..self.bid },
            ..self
        }
    }
}

/// Withdraws the caller's bid. The record stays, inactive, until it is
/// closed. A rejected withdrawal changes nothing.
pub fn handler(ctx: &mut WithdrawBid) -> (r: Result<(Transfer, BidWithdrawn), AuctionError>)
    ensures
        match r {
            Ok((movement, event)) => {
                &&& old(ctx).rejection() is None
                &&& *final(ctx) == old(ctx).withdrawn()
                &&& movement == old(ctx).movement()
                &&& event.bidder == old(ctx).bid.bidder
                &&& event.amount == old(ctx).bid.amount
            },
            Err(e) => {
                &&& old(ctx).rejection() == Some(e)
                &&& *final(ctx) == *old(ctx)
            },
        },
{
    if ctx.bid.bidder != ctx.bidder {
        return Err(AuctionError::WrongBidder);
    }
    if !ctx.bid.active {
        return Err(AuctionError::BidNotActive);
    }
    let count: u64 = match ctx.auction_state.active_bid_count.checked_sub(1) {
        Some(count) => count,
        None => {
            return Err(AuctionError::ArithmeticOverflow);
        },
    };
    let amount: u64 = ctx.bid.amount;
    let bidder = ctx.bid.bidder;
    let movement = Transfer {
        from: ctx.auction_state.escrow,
        to: ctx.bidder_usdc,
        authority: Authority::Custodian,
        mint: ctx.auction_state.usdc_mint,
        amount,
        decimals: USDC_DECIMALS,
    };
    ctx.bid.active = false;
    ctx.auction_state.active_bid_count = count;
    Ok((movement, BidWithdrawn { bidder, amount }))
}

} // verus!
