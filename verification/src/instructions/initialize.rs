//! Creating the auction state.

use vstd::prelude::*;
use crate::error::AuctionError;
use crate::identity::Identity;
use crate::ledger::Mint;
use crate::state::AuctionState;
use crate::USDC_DECIMALS;

verus! {

/// What the initialization works on.
#[derive(Clone, Copy, Debug, PartialEq, Eq)]
pub struct Initialize {
    /// The fresh record that becomes the auction state. What it holds before
    /// the operation is of no account.
    pub auction_state: AuctionState,
    /// The asset that bids will be locked in.
    pub usdc_mint: Mint,
    /// The balance that will receive settled funds.
    pub treasury: Identity,
    /// The pooled balance that will hold locked funds.
    pub escrow: Identity,
    /// The authenticated caller, who becomes the agent.
    pub agent: Identity,
}

impl Initialize {
    /// Why the initialization is rejected, if it is.
    pub open spec fn rejection(self) -> Option<AuctionError> {
        if self.usdc_mint.decimals != USDC_DECIMALS {
            Some(AuctionError::InvalidMintDecimals)
        } else {
            None
        }
    }

    /// The auction state that an accepted initialization with the floor
    /// `minimum_bid` creates: no bid is active yet.
    pub open spec fn created(self, minimum_bid: u64) -> AuctionState {
        AuctionState {
            agent: self.agent,
            usdc_mint: self.usdc_mint.key,
            treasury: self.treasury,
            escrow: self.escrow,
            minimum_bid,
            active_bid_count: 0,
        }
    }
}

/// Creates the auction state with the caller as agent and `minimum_bid` as
/// floor. A rejected initialization changes nothing.
pub fn handler(ctx: &mut Initialize, minimum_bid: u64) -> (r: Result<(), AuctionError>)
    ensures
        match r {
            Ok(()) => {
                &&& old(ctx).rejection() is None
                &&& *final(ctx) == (Initialize {
                    auction_state: old(ctx).created(minimum_bid),
                    ..*old(ctx)
                })
            },
            Err(e) => {
                &&& old(ctx).rejection() == Some(e)
                &&& *final(ctx) == *old(ctx)
            },
        },
{
    if ctx.usdc_mint.decimals != USDC_DECIMALS {
        return Err(AuctionError::InvalidMintDecimals);
    }
    ctx.auction_state = AuctionState {
        agent: ctx.agent,
        usdc_mint: ctx.usdc_mint.key,
        treasury: ctx.treasury,
        escrow: ctx.escrow,
        minimum_bid,
        active_bid_count: 0,
    };
    Ok(())
}

} // verus!
