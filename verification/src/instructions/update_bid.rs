//! Raising or lowering the amount that an active bid has locked.

use vstd::prelude::*;
use crate::error::AuctionError;
use crate::event::BidUpdated;
use crate::identity::Identity;
use crate::ledger::{Authority, Transfer};
use crate::state::{AuctionState, Bid};
use crate::USDC_DECIMALS;

verus! {

/// What an adjustment of a bid works on.
#[derive(Clone, Copy, Debug, PartialEq, Eq)]
pub struct UpdateBid {
    pub auction_state: AuctionState,
    /// The bid to adjust.
    pub bid: Bid,
    /// The bidder's own balance: an increase is taken from it, a decrease is
    /// returned to it.
    pub bidder_usdc: Identity,
    /// The authenticated caller.
    pub bidder: Identity,
}

impl UpdateBid {
    /// Why an adjustment by `amount_change` is rejected, if it is. The first
    /// reason that applies is the one reported. Neither an increase nor a
    /// decrease may land below the floor in force; a change of zero changes
    /// no amount and is held to no floor.
    pub open spec fn rejection(self, amount_change: i64) -> Option<AuctionError> {
        if self.bid.bidder != self.bidder {
            Some(AuctionError::WrongBidder)
        } else if !self.bid.active {
            Some(AuctionError::BidNotActive)
        } else if amount_change > 0 && self.bid.amount + amount_change > u64::MAX {
            Some(AuctionError::ArithmeticOverflow)
        } else if amount_change == i64::MIN {
            Some(AuctionError::InvalidAmountChange)
        } else if amount_change < 0 && self.bid.amount + amount_change < 0 {
            Some(AuctionError::InsufficientEscrow)
        } else if amount_change != 0 && self.bid.amount + amount_change
            < self.auction_state.minimum_bid {
            Some(AuctionError::AmountBelowMinimum)
        } else {
            None
        }
    }

    /// The amount that the bid locks after an accepted adjustment.
    pub open spec fn new_amount(self, amount_change: i64) -> int {
        self.bid.amount + amount_change
    }

    /// The movement of funds that belongs to an accepted adjustment: into the
    /// pooled balance on the bidder's authority for an increase, out of it on
    /// the custodian's authority for a decrease, none for a change of zero.
    pub open spec fn movement(self, amount_change: i64) -> Option<Transfer> {
        if amount_change > 0 {
            Some(
                Transfer {
                    from: self.bidder_usdc,
                    to: self.auction_state.escrow,
                    authority: Authority::Party(self.bidder),
                    mint: self.auction_state.usdc_mint,
                    amount: amount_change as u64,
                    decimals: USDC_DECIMALS,
                },
            )
        } else if amount_change < 0 {
            Some(
                Transfer {
                    from: self.auction_state.escrow,
                    to: self.bidder_usdc,
                    authority: Authority::Custodian,
                    mint: self.auction_state.usdc_mint,
                    amount: (-amount_change) as u64,
                    decimals: USDC_DECIMALS,
                },
            )
        } else {
            None
        }
    }

    /// The records after an accepted adjustment at time `now`: only the bid's
    /// amount and the time of its last change differ.
    pub open spec fn adjusted(self, amount_change: i64, now: i64) -> UpdateBid {
        UpdateBid {
            bid: Bid {
                amount: self.new_amount(amount_change) as u64,
                updated_at: now,
                ..self.bid
            },
            ..self
        }
    }
}

/// Adjusts the bid by `amount_change` at time `now`: a positive change locks
/// more, a negative one releases, zero moves nothing. A changed amount meets
/// the floor in force, or the adjustment is rejected. An accepted adjustment
/// always records `now` as the time of the last change. A rejected one
/// changes nothing.
pub fn handler(ctx: &mut UpdateBid, amount_change: i64, now: i64) -> (r: Result<
    (Option<Transfer>, BidUpdated),
    AuctionError,
>)
    ensures
        match r {
            Ok((movement, event)) => {
                &&& old(ctx).rejection(amount_change) is None
                &&& *final(ctx) == old(ctx).adjusted(amount_change, now)
                &&& movement == old(ctx).movement(amount_change)
                &&& event.bidder == old(ctx).bidder
                &&& event.new_amount == old(ctx).new_amount(amount_change)
            },
            Err(e) => {
                &&& old(ctx).rejection(amount_change) == Some(e)
                &&& *final(ctx) == *old(ctx)
            },
        },
{
    if ctx.bid.bidder != ctx.bidder {
        return Err(AuctionError::WrongBidder);
    }
    if !ctx.bid.active {
        return Err(AuctionError::BidNotActive);
    }
    let mut movement: Option<Transfer> = None;
    if amount_change > 0 {
        let increase: u64 = amount_change as u64;
        let new_amount: u64 = match ctx.bid.amount.checked_add(increase) {
            Some(sum) => sum,
            None => {
                return Err(AuctionError::ArithmeticOverflow);
            },
        };
        if new_amount < ctx.auction_state.minimum_bid {
            return Err(AuctionError::AmountBelowMinimum);
        }
        movement = Some(
            Transfer {
                from: ctx.bidder_usdc,
                to: ctx.auction_state.escrow,
                authority: Authority::Party(ctx.bidder),
                mint: ctx.auction_state.usdc_mint,
                amount: increase,
                decimals: USDC_DECIMALS,
            },
        );
        ctx.bid.amount = new_amount;
    } else if amount_change < 0 {
        if amount_change == i64::MIN {
            return Err(AuctionError::InvalidAmountChange);
        }
        let decrease: u64 = (-amount_change) as u64;
        let new_amount: u64 = match ctx.bid.amount.checked_sub(decrease) {
            Some(rest) => rest,
            None => {
                return Err(AuctionError::InsufficientEscrow);
            },
        };
        if new_amount < ctx.auction_state.minimum_bid {
            return Err(AuctionError::AmountBelowMinimum);
        }
        movement = Some(
            Transfer {
                from: ctx.auction_state.escrow,
                to: ctx.bidder_usdc,
                authority: Authority::Custodian,
                mint: ctx.auction_state.usdc_mint,
                amount: decrease,
                decimals: USDC_DECIMALS,
            },
        );
        ctx.bid.amount = new_amount;
    }
    ctx.bid.updated_at = now;
    Ok((movement, BidUpdated { bidder: ctx.bidder, new_amount: ctx.bid.amount }))
}

} // verus!
