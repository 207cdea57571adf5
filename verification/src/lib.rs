//! A single-asset sealed-pool auction: bidders lock collateral into a pooled
//! custodial balance, and an agent settles by releasing one winning bid to a
//! treasury.

pub mod auction;
pub mod error;
pub mod event;
pub mod identity;
pub mod instructions;
pub mod laws;
pub mod ledger;
pub mod model;
pub mod state;

pub use auction::{
    close_bid, initialize, place_bid, set_agent, set_minimum_bid, settle, update_bid, withdraw_bid,
};

use vstd::prelude::*;

verus! {

/// The decimal precision of the asset that bids are locked in.
pub const USDC_DECIMALS: u8 = 6;

} // verus!
