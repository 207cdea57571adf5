//! The operations of the auction, one module each. Every operation checks
//! its preconditions, updates the records it was given, and returns the one
//! movement of funds that belongs to it for the caller to carry out. Records
//! and movement are committed together or not at all.

pub mod close_bid;
pub mod initialize;
pub mod place_bid;
pub mod set_agent;
pub mod set_minimum_bid;
pub mod settle;
pub mod update_bid;
pub mod withdraw_bid;

pub use close_bid::CloseBid;
pub use initialize::Initialize;
pub use place_bid::PlaceBid;
pub use set_agent::SetAgent;
pub use set_minimum_bid::SetMinimumBid;
pub use settle::Settle;
pub use update_bid::UpdateBid;
pub use withdraw_bid::WithdrawBid;
