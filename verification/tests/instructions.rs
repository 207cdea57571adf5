use cartoonist_auction::error::AuctionError;
use cartoonist_auction::event::{BidPlaced, BidSettled, BidUpdated, BidWithdrawn};
use cartoonist_auction::identity::Identity;
use cartoonist_auction::instructions::{
    close_bid, initialize, place_bid, set_agent, set_minimum_bid, settle, update_bid, withdraw_bid,
};
use cartoonist_auction::instructions::{
    CloseBid, Initialize, PlaceBid, SetAgent, SetMinimumBid, Settle, UpdateBid, WithdrawBid,
};
use cartoonist_auction::ledger::{Authority, Mint, Transfer};
use cartoonist_auction::state::{AuctionState, Bid};
use cartoonist_auction::USDC_DECIMALS;

const AGENT: u8 = 1;
const MINT: u8 = 2;
const TREASURY: u8 = 3;
const ESCROW: u8 = 4;
const BIDDER: u8 = 10;
const WALLET: u8 = 11;
const STRANGER: u8 = 20;

fn id(n: u8) -> Identity {
    Identity::new([n; 32])
}

fn state(minimum_bid: u64, active_bid_count: u64) -> AuctionState {
    AuctionState {
        agent: id(AGENT),
        usdc_mint: id(MINT),
        treasury: id(TREASURY),
        escrow: id(ESCROW),
        minimum_bid,
        active_bid_count,
    }
}

fn bid(amount: u64, active: bool) -> Bid {
    Bid { bidder: id(BIDDER), amount, created_at: 5, updated_at: 6, active }
}

fn blank() -> Bid {
    Bid { bidder: id(0), amount: 0, created_at: 0, updated_at: 0, active: false }
}

fn adjusting(amount: u64, minimum_bid: u64) -> UpdateBid {
    UpdateBid {
        auction_state: state(minimum_bid, 1),
        bid: bid(amount, true),
        bidder_usdc: id(WALLET),
        bidder: id(BIDDER),
    }
}

#[test]
fn the_precision_is_six_decimals() {
    assert_eq!(USDC_DECIMALS, 6);
}

#[test]
fn initialize_fills_the_auction_state() {
    let mut ctx = Initialize {
        auction_state: state(7, 9),
        usdc_mint: Mint { key: id(MINT), decimals: 6 },
        treasury: id(TREASURY),
        escrow: id(ESCROW),
        agent: id(AGENT),
    };
    assert_eq!(initialize::handler(&mut ctx, 100), Ok(()));
    assert_eq!(ctx.auction_state, state(100, 0));
}

#[test]
fn initialize_rejects_another_precision() {
    let mut ctx = Initialize {
        auction_state: state(7, 9),
        usdc_mint: Mint { key: id(MINT), decimals: 9 },
        treasury: id(TREASURY),
        escrow: id(ESCROW),
        agent: id(AGENT),
    };
    let before = ctx;
    assert_eq!(initialize::handler(&mut ctx, 100), Err(AuctionError::InvalidMintDecimals));
    assert_eq!(ctx, before);
}

#[test]
fn place_bid_at_the_floor_is_accepted() {
    let mut ctx = PlaceBid {
        auction_state: state(100, 0),
        bid: blank(),
        bidder_usdc: id(WALLET),
        bidder: id(BIDDER),
    };
    let (movement, event) = place_bid::handler(&mut ctx, 100, 42).unwrap();
    assert_eq!(ctx.auction_state, state(100, 1));
    assert_eq!(
        ctx.bid,
        Bid { bidder: id(BIDDER), amount: 100, created_at: 42, updated_at: 42, active: true }
    );
    assert_eq!(
        movement,
        Transfer {
            from: id(WALLET),
            to: id(ESCROW),
            authority: Authority::Party(id(BIDDER)),
            mint: id(MINT),
            amount: 100,
            decimals: 6,
        }
    );
    assert_eq!(event, BidPlaced { bidder: id(BIDDER), amount: 100 });
}

#[test]
fn place_bid_below_the_floor_is_rejected() {
    let mut ctx = PlaceBid {
        auction_state: state(100, 0),
        bid: blank(),
        bidder_usdc: id(WALLET),
        bidder: id(BIDDER),
    };
    let before = ctx;
    assert_eq!(place_bid::handler(&mut ctx, 99, 42), Err(AuctionError::BidTooLow));
    assert_eq!(ctx, before);
}

#[test]
fn place_bid_checks_the_floor_before_the_counter() {
    let mut ctx = PlaceBid {
        auction_state: state(100, u64::MAX),
        bid: blank(),
        bidder_usdc: id(WALLET),
        bidder: id(BIDDER),
    };
    assert_eq!(place_bid::handler(&mut ctx, 50, 42), Err(AuctionError::BidTooLow));
}

#[test]
fn place_bid_rejects_a_full_counter() {
    let mut ctx = PlaceBid {
        auction_state: state(100, u64::MAX),
        bid: blank(),
        bidder_usdc: id(WALLET),
        bidder: id(BIDDER),
    };
    let before = ctx;
    assert_eq!(place_bid::handler(&mut ctx, 100, 42), Err(AuctionError::ArithmeticOverflow));
    assert_eq!(ctx, before);
}

#[test]
fn update_bid_increase_takes_funds_from_the_bidder() {
    let mut ctx = adjusting(200, 100);
    let (movement, event) = update_bid::handler(&mut ctx, 50, 9).unwrap();
    assert_eq!(
        ctx.bid,
        Bid { bidder: id(BIDDER), amount: 250, created_at: 5, updated_at: 9, active: true }
    );
    assert_eq!(ctx.auction_state, state(100, 1));
    assert_eq!(
        movement,
        Some(Transfer {
            from: id(WALLET),
            to: id(ESCROW),
            authority: Authority::Party(id(BIDDER)),
            mint: id(MINT),
            amount: 50,
            decimals: 6,
        })
    );
    assert_eq!(event, BidUpdated { bidder: id(BIDDER), new_amount: 250 });
}

#[test]
fn update_bid_decrease_returns_funds_on_the_custodians_authority() {
    let mut ctx = adjusting(200, 100);
    let (movement, event) = update_bid::handler(&mut ctx, -100, 9).unwrap();
    assert_eq!(ctx.bid.amount, 100);
    assert_eq!(ctx.bid.updated_at, 9);
    assert_eq!(
        movement,
        Some(Transfer {
            from: id(ESCROW),
            to: id(WALLET),
            authority: Authority::Custodian,
            mint: id(MINT),
            amount: 100,
            decimals: 6,
        })
    );
    assert_eq!(event, BidUpdated { bidder: id(BIDDER), new_amount: 100 });
}

#[test]
fn update_bid_decrease_below_the_floor_is_rejected() {
    let mut ctx = adjusting(200, 100);
    let before = ctx;
    assert_eq!(update_bid::handler(&mut ctx, -150, 9), Err(AuctionError::AmountBelowMinimum));
    assert_eq!(ctx, before);
    assert_eq!(update_bid::handler(&mut ctx, -101, 9), Err(AuctionError::AmountBelowMinimum));
    assert_eq!(ctx, before);
}

#[test]
fn update_bid_decrease_beyond_the_amount_is_rejected() {
    let mut ctx = adjusting(200, 0);
    let before = ctx;
    assert_eq!(update_bid::handler(&mut ctx, -201, 9), Err(AuctionError::InsufficientEscrow));
    assert_eq!(ctx, before);
    let (_, event) = update_bid::handler(&mut ctx, -200, 9).unwrap();
    assert_eq!(event.new_amount, 0);
}

#[test]
fn update_bid_by_zero_only_records_the_time() {
    let mut ctx = adjusting(200, 100);
    let (movement, event) = update_bid::handler(&mut ctx, 0, 77).unwrap();
    assert_eq!(movement, None);
    assert_eq!(
        ctx.bid,
        Bid { bidder: id(BIDDER), amount: 200, created_at: 5, updated_at: 77, active: true }
    );
    assert_eq!(event, BidUpdated { bidder: id(BIDDER), new_amount: 200 });
}

#[test]
fn update_bid_increase_beyond_the_range_is_rejected() {
    let mut ctx = adjusting(u64::MAX - 4, 100);
    let before = ctx;
    assert_eq!(update_bid::handler(&mut ctx, 5, 9), Err(AuctionError::ArithmeticOverflow));
    assert_eq!(ctx, before);
    let (_, event) = update_bid::handler(&mut ctx, 4, 9).unwrap();
    assert_eq!(event.new_amount, u64::MAX);
}

#[test]
fn update_bid_largest_increase() {
    let mut ctx = adjusting(1, 0);
    let (movement, event) = update_bid::handler(&mut ctx, i64::MAX, 9).unwrap();
    assert_eq!(movement.unwrap().amount, 9_223_372_036_854_775_807);
    assert_eq!(event.new_amount, 9_223_372_036_854_775_808);
}

#[test]
fn update_bid_rejects_a_change_without_magnitude() {
    let mut ctx = adjusting(u64::MAX, 0);
    let before = ctx;
    assert_eq!(update_bid::handler(&mut ctx, i64::MIN, 9), Err(AuctionError::InvalidAmountChange));
    assert_eq!(ctx, before);
    let (movement, _) = update_bid::handler(&mut ctx, i64::MIN + 1, 9).unwrap();
    assert_eq!(movement.unwrap().amount, 9_223_372_036_854_775_807);
}

#[test]
fn update_bid_of_another_bidder_is_rejected() {
    let mut ctx = adjusting(200, 100);
    ctx.bidder = id(STRANGER);
    let before = ctx;
    assert_eq!(update_bid::handler(&mut ctx, 10, 9), Err(AuctionError::WrongBidder));
    assert_eq!(ctx, before);
}

#[test]
fn update_bid_of_an_inactive_bid_is_rejected() {
    let mut ctx = adjusting(200, 100);
    ctx.bid.active = false;
    let before = ctx;
    assert_eq!(update_bid::handler(&mut ctx, 10, 9), Err(AuctionError::BidNotActive));
    assert_eq!(ctx, before);
    ctx.bidder = id(STRANGER);
    assert_eq!(update_bid::handler(&mut ctx, 10, 9), Err(AuctionError::WrongBidder));
}

#[test]
fn update_bid_increase_below_a_raised_floor_is_rejected() {
    let mut ctx = adjusting(200, 300);
    let before = ctx;
    assert_eq!(update_bid::handler(&mut ctx, 50, 9), Err(AuctionError::AmountBelowMinimum));
    assert_eq!(ctx, before);
    assert_eq!(update_bid::handler(&mut ctx, 99, 9), Err(AuctionError::AmountBelowMinimum));
    assert_eq!(ctx, before);
}

#[test]
fn update_bid_increase_up_to_a_raised_floor_is_accepted() {
    let mut ctx = adjusting(200, 300);
    let (movement, event) = update_bid::handler(&mut ctx, 100, 9).unwrap();
    assert_eq!(movement.unwrap().amount, 100);
    assert_eq!(event, BidUpdated { bidder: id(BIDDER), new_amount: 300 });
    assert_eq!(ctx.bid.amount, 300);
    assert_eq!(ctx.bid.updated_at, 9);
    assert!(ctx.bid.active);
}

#[test]
fn update_bid_by_zero_is_accepted_below_a_raised_floor() {
    let mut ctx = adjusting(200, 300);
    let (movement, event) = update_bid::handler(&mut ctx, 0, 9).unwrap();
    assert_eq!(movement, None);
    assert_eq!(event, BidUpdated { bidder: id(BIDDER), new_amount: 200 });
    assert_eq!(
        ctx.bid,
        Bid { bidder: id(BIDDER), amount: 200, created_at: 5, updated_at: 9, active: true }
    );
}

#[test]
fn withdraw_bid_releases_the_full_amount() {
    let mut ctx = WithdrawBid {
        auction_state: state(100, 3),
        bid: bid(250, true),
        bidder_usdc: id(WALLET),
        bidder: id(BIDDER),
    };
    let (movement, event) = withdraw_bid::handler(&mut ctx).unwrap();
    assert_eq!(ctx.auction_state, state(100, 2));
    assert_eq!(ctx.bid, bid(250, false));
    assert_eq!(
        movement,
        Transfer {
            from: id(ESCROW),
            to: id(WALLET),
            authority: Authority::Custodian,
            mint: id(MINT),
            amount: 250,
            decimals: 6,
        }
    );
    assert_eq!(event, BidWithdrawn { bidder: id(BIDDER), amount: 250 });
}

#[test]
fn withdraw_bid_rejections() {
    let good = WithdrawBid {
        auction_state: state(100, 3),
        bid: bid(250, true),
        bidder_usdc: id(WALLET),
        bidder: id(BIDDER),
    };
    let mut ctx = WithdrawBid { bidder: id(STRANGER), ..good };
    assert_eq!(withdraw_bid::handler(&mut ctx), Err(AuctionError::WrongBidder));
    assert_eq!(ctx, WithdrawBid { bidder: id(STRANGER), ..good });
    let mut ctx = WithdrawBid { bid: bid(250, false), ..good };
    assert_eq!(withdraw_bid::handler(&mut ctx), Err(AuctionError::BidNotActive));
    assert_eq!(ctx, WithdrawBid { bid: bid(250, false), ..good });
    let mut ctx = WithdrawBid { auction_state: state(100, 0), ..good };
    assert_eq!(withdraw_bid::handler(&mut ctx), Err(AuctionError::ArithmeticOverflow));
    assert_eq!(ctx, WithdrawBid { auction_state: state(100, 0), ..good });
}

#[test]
fn settle_sends_the_winning_bid_to_the_treasury() {
    let mut ctx =
        Settle { auction_state: state(100, 1), winning_bid: bid(500, true), agent: id(AGENT) };
    let (movement, event) = settle::handler(&mut ctx).unwrap();
    assert_eq!(ctx.auction_state, state(100, 0));
    assert_eq!(ctx.winning_bid, bid(500, false));
    assert_eq!(
        movement,
        Transfer {
            from: id(ESCROW),
            to: id(TREASURY),
            authority: Authority::Custodian,
            mint: id(MINT),
            amount: 500,
            decimals: 6,
        }
    );
    assert_eq!(event, BidSettled { winner: id(BIDDER), amount: 500 });
    let before = ctx;
    assert_eq!(settle::handler(&mut ctx), Err(AuctionError::BidNotActive));
    assert_eq!(ctx, before);
}

#[test]
fn settle_rejections() {
    let good =
        Settle { auction_state: state(100, 1), winning_bid: bid(500, true), agent: id(AGENT) };
    let mut ctx = Settle { agent: id(BIDDER), ..good };
    assert_eq!(settle::handler(&mut ctx), Err(AuctionError::OnlyAgent));
    assert_eq!(ctx, Settle { agent: id(BIDDER), ..good });
    let mut ctx = Settle { agent: id(BIDDER), winning_bid: bid(500, false), ..good };
    assert_eq!(settle::handler(&mut ctx), Err(AuctionError::OnlyAgent));
    let mut ctx = Settle { auction_state: state(100, 0), ..good };
    assert_eq!(settle::handler(&mut ctx), Err(AuctionError::ArithmeticOverflow));
    assert_eq!(ctx, Settle { auction_state: state(100, 0), ..good });
}

#[test]
fn close_bid_needs_an_inactive_bid_of_the_caller() {
    let ctx = CloseBid { bid: bid(250, true), bidder: id(BIDDER) };
    assert_eq!(close_bid::handler(&ctx), Err(AuctionError::BidStillActive));
    let ctx = CloseBid { bid: bid(250, true), bidder: id(STRANGER) };
    assert_eq!(close_bid::handler(&ctx), Err(AuctionError::BidStillActive));
    let ctx = CloseBid { bid: bid(250, false), bidder: id(STRANGER) };
    assert_eq!(close_bid::handler(&ctx), Err(AuctionError::WrongBidder));
    let ctx = CloseBid { bid: bid(250, false), bidder: id(BIDDER) };
    assert_eq!(close_bid::handler(&ctx), Ok(()));
}

#[test]
fn set_minimum_bid_is_for_the_agent() {
    let mut ctx = SetMinimumBid { auction_state: state(100, 2), agent: id(AGENT) };
    assert_eq!(set_minimum_bid::handler(&mut ctx, 750), Ok(()));
    assert_eq!(ctx.auction_state, state(750, 2));
    let mut ctx = SetMinimumBid { auction_state: state(100, 2), agent: id(STRANGER) };
    assert_eq!(set_minimum_bid::handler(&mut ctx, 750), Err(AuctionError::OnlyAgent));
    assert_eq!(ctx.auction_state, state(100, 2));
}

#[test]
fn set_agent_is_for_the_agent() {
    let mut ctx =
        SetAgent { auction_state: state(100, 2), agent: id(AGENT), new_agent: id(STRANGER) };
    assert_eq!(set_agent::handler(&mut ctx), Ok(()));
    assert_eq!(ctx.auction_state, AuctionState { agent: id(STRANGER), ..state(100, 2) });
    let mut ctx =
        SetAgent { auction_state: state(100, 2), agent: id(BIDDER), new_agent: id(BIDDER) };
    assert_eq!(set_agent::handler(&mut ctx), Err(AuctionError::OnlyAgent));
    assert_eq!(ctx.auction_state, state(100, 2));
}

#[test]
fn every_rejection_has_its_message() {
    assert_eq!(AuctionError::OnlyAgent.message(), "Only the agent can perform this action");
    assert_eq!(AuctionError::BidTooLow.message(), "Bid below minimum");
    assert_eq!(AuctionError::BidNotActive.message(), "Bid is not active");
    assert_eq!(
        AuctionError::AmountBelowMinimum.message(),
        "Bid amount would fall below minimum"
    );
    assert_eq!(AuctionError::InsufficientEscrow.message(), "Insufficient escrow balance");
    assert_eq!(AuctionError::WrongBidder.message(), "Bid does not belong to this bidder");
    assert_eq!(
        AuctionError::BidStillActive.message(),
        "Bid is still active \u{2014} withdraw first or wait to win"
    );
    assert_eq!(AuctionError::ArithmeticOverflow.message(), "Arithmetic overflow or underflow");
    assert_eq!(AuctionError::InvalidMintDecimals.message(), "Invalid mint decimals");
    assert_eq!(AuctionError::InvalidAmountChange.message(), "Invalid amount change");
}
