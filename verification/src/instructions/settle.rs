//! Settling the auction on one bid: its locked funds go to the treasury.

use vstd::prelude::*;
use crate::error::AuctionError;
use crate::event::BidSettled;
use crate::identity::Identity;
use crate::ledger::{Authority, Transfer};
use crate::state::{AuctionState, Bid};
use crate::USDC_DECIMALS;

verus! {

/// What a settlement works on.
#[derive(Clone, Copy, Debug, PartialEq, Eq)]
pub struct Settle {
    pub auction_state: AuctionState,
    /// The bid that the agent designates as the winner. The auction does not
    /// compare it with other bids.
    pub winning_bid: Bid,
    /// The authenticated caller.
    pub agent: Identity,
}

impl Settle {
    /// Why the settlement is rejected, if it is. The first reason that
    /// applies is the one reported.
    pub open spec fn rejection(self) -> Option<AuctionError> {
        if self.auction_state.agent != self.agent {
            Some(AuctionError::OnlyAgent)
        } else if !self.winning_bid.active {
            Some(AuctionError::BidNotActive)
        } else if self.auction_state.active_bid_count == 0 {
            Some(AuctionError::ArithmeticOverflow)
        } else {
            None
        }
    }

    /// The movement of funds that belongs to an accepted settlement: the
    /// winning bid's full amount out of the pooled balance into the treasury,
    /// on the custodian's authority.
    pub open spec fn movement(self) -> Transfer {
        Transfer {
            from: self.auction_state.escrow,
            to: self.auction_state.treasury,
            authority: Authority::Custodian,
            mint: self.auction_state.usdc_mint,
            amount: self.winning_bid.amount,
            decimals: USDC_DECIMALS,
        }
    }

    /// The records after an accepted settlement: the winning bid is inactive
    /// and one bid fewer is counted as active.
    pub open spec fn settled(self) -> Settle {
        Settle {
            auction_state: AuctionState {
                active_bid_count: (self.auction_state.active_bid_count - 1) as u64,
                ..self.auction_state
            },
            winning_bid: Bid { active: false, ..self.winning_bid },
            ..self
        }
    }
}

/// Settles the auction on the designated bid. The record stays, inactive,
/// until its bidder closes it. A rejected settlement changes nothing.
pub fn handler(ctx: &mut Settle) -> (r: Result<(Transfer, BidSettled), AuctionError>)
    ensures
        match r {
            Ok((movement, event)) => {
                &&& old(ctx).rejection() is None
                &&& *final(ctx) == old(ctx).settled()
                &&& movement == old(ctx).movement()
                &&& event.winner == old(ctx).winning_bid.bidder
                &&& event.amount == old(ctx).winning_bid.amount
            },
            Err(e) => {
                &&& old(ctx).rejection() == Some(e)
                &&& *final(ctx) == *old(ctx)
            },
        },
{
    if ctx.auction_state.agent != ctx.agent {
        return Err(AuctionError::OnlyAgent);
    }
    if !ctx.winning_bid.active {
        return Err(AuctionError::BidNotActive);
    }
    let count: u64 = match ctx.auction_state.active_bid_count.checked_sub(1) {
        Some(count) => count,
        None => {
            return Err(AuctionError::ArithmeticOverflow);
        },
    };
    let amount: u64 = ctx.winning_bid.amount;
    let winner = ctx.winning_bid.bidder;
    let movement = Transfer {
        from: ctx.auction_state.escrow,
        to: ctx.auction_state.treasury,
        authority: Authority::Custodian,
        mint: ctx.auction_state.usdc_mint,
        amount,
        decimals: USDC_DECIMALS,
    };
    ctx.winning_bid.active = false;
    ctx.auction_state.active_bid_count = count;
    Ok((movement, BidSettled { winner, amount }))
}

} // verus!
