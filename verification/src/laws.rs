//! What holds of the auction whatever its callers do.

use vstd::prelude::*;
use crate::error::Failure;
use crate::identity::Identity;
use crate::instructions::{PlaceBid, Settle, UpdateBid, WithdrawBid};
use crate::ledger::{Balance, Mint};
use crate::model::{
    active_count, active_total, bid_index, has_bid, lemma_active_count_is_filter_len,
    lemma_bid_at, AuctionView,
};
use crate::state::Bid;

verus! {

/// Anything that a caller may ask of the auction as a whole.
pub enum Operation {
    Fund { address: Identity, owner: Identity, amount: u64 },
    Initialize {
        agent: Identity,
        usdc_mint: Mint,
        treasury: Identity,
        escrow: Identity,
        minimum_bid: u64,
    },
    PlaceBid { bidder: Identity, wallet: Identity, amount: u64, now: i64 },
    UpdateBid { bidder: Identity, wallet: Identity, amount_change: i64, now: i64 },
    WithdrawBid { bidder: Identity, wallet: Identity },
    Settle { agent: Identity, winner: Identity },
    CloseBid { bidder: Identity },
    SetMinimumBid { agent: Identity, minimum_bid: u64 },
    SetAgent { agent: Identity, new_agent: Identity },
}

/// What `operation` makes of `auction`, or why it fails.
pub open spec fn attempt(auction: AuctionView, operation: Operation) -> Result<
    AuctionView,
    Failure,
> {
    match operation {
        Operation::Fund { address, owner, amount } => auction.fund(address, owner, amount),
        Operation::Initialize { agent, usdc_mint, treasury, escrow, minimum_bid } => {
            auction.initialize(agent, usdc_mint, treasury, escrow, minimum_bid)
        },
        Operation::PlaceBid { bidder, wallet, amount, now } => auction.place_bid(
            bidder,
            wallet,
            amount,
            now,
        ),
        Operation::UpdateBid { bidder, wallet, amount_change, now } => auction.update_bid(
            bidder,
            wallet,
            amount_change,
            now,
        ),
        Operation::WithdrawBid { bidder, wallet } => auction.withdraw_bid(bidder, wallet),
        Operation::Settle { agent, winner } => auction.settle(agent, winner),
        Operation::CloseBid { bidder } => auction.close_bid(bidder),
        Operation::SetMinimumBid { agent, minimum_bid } => auction.set_minimum_bid(
            agent,
            minimum_bid,
        ),
        Operation::SetAgent { agent, new_agent } => auction.set_agent(agent, new_agent),
    }
}

/// The auction after `operation` was asked of it: a failed operation leaves
/// it as it was.
pub open spec fn after(auction: AuctionView, operation: Operation) -> AuctionView {
    match attempt(auction, operation) {
        Ok(next) => next,
        Err(_) => auction,
    }
}

/// The auction after all of `operations` were asked of it, one after the
/// other.
pub open spec fn after_all(auction: AuctionView, operations: Seq<Operation>) -> AuctionView
    decreases operations.len(),
{
    if operations.len() == 0 {
        auction
    } else {
        after(after_all(auction, operations.drop_last()), operations.last())
    }
}

/// An auction that has not been initialized and has no bids is well formed,
/// whatever its ledger holds.
pub proof fn lemma_fresh_auction_is_wf(mint: Mint, book: Map<Identity, Balance>)
    ensures
        (AuctionView { state: None, bids: Seq::empty(), mint, book }).wf(),
{
}

/// No operation, accepted or not, leads out of the well-formed auctions.
pub proof fn lemma_wf_after(auction: AuctionView, operation: Operation)
    requires
        auction.wf(),
    ensures
        after(auction, operation).wf(),
{
    if attempt(auction, operation) is Ok {
        match operation {
            Operation::Fund { address, owner, amount } => {
                auction.lemma_fund_preserves_wf(address, owner, amount);
            },
            Operation::Initialize { agent, usdc_mint, treasury, escrow, minimum_bid } => {
                auction.lemma_initialize_preserves_wf(
                    agent,
                    usdc_mint,
                    treasury,
                    escrow,
                    minimum_bid,
                );
            },
            Operation::PlaceBid { bidder, wallet, amount, now } => {
                auction.lemma_place_bid_preserves_wf(bidder, wallet, amount, now);
            },
            Operation::UpdateBid { bidder, wallet, amount_change, now } => {
                auction.lemma_update_bid_preserves_wf(bidder, wallet, amount_change, now);
            },
            Operation::WithdrawBid { bidder, wallet } => {
                auction.lemma_withdraw_bid_preserves_wf(bidder, wallet);
            },
            Operation::Settle { agent, winner } => {
                auction.lemma_settle_preserves_wf(agent, winner);
            },
            Operation::CloseBid { bidder } => {
                auction.lemma_close_bid_preserves_wf(bidder);
            },
            Operation::SetMinimumBid { agent, minimum_bid } => {
                auction.lemma_set_minimum_bid_preserves_wf(agent, minimum_bid);
            },
            Operation::SetAgent { agent, new_agent } => {
                auction.lemma_set_agent_preserves_wf(agent, new_agent);
            },
        }
    }
}

/// At all times, whatever was asked of the auction since it was well
/// formed, and in whatever order, the count of active bids is the number of
/// active bids on record and the pooled balance is the sum of their
/// amounts.
pub proof fn lemma_wf_at_all_times(auction: AuctionView, operations: Seq<Operation>)
    requires
        auction.wf(),
    ensures
        after_all(auction, operations).wf(),
        after_all(auction, operations).counts_agree(),
        after_all(auction, operations).escrow_backed(),
    decreases operations.len(),
{
    if operations.len() > 0 {
        lemma_wf_at_all_times(auction, operations.drop_last());
        lemma_wf_after(after_all(auction, operations.drop_last()), operations.last());
    }
}

/// A bidder's record comes into being when the bidder opens a bid, goes
/// when the bidder closes it, and is there or not as before after anything
/// else.
pub proof fn lemma_records_follow_open_and_close(
    auction: AuctionView,
    operation: Operation,
    bidder: Identity,
)
    requires
        auction.wf(),
    ensures
        has_bid(after(auction, operation).bids, bidder) == if attempt(auction, operation) is Err {
            has_bid(auction.bids, bidder)
        } else if operation matches Operation::PlaceBid { bidder: opener, .. } && opener == bidder {
            true
        } else if operation matches Operation::CloseBid { bidder: closer } && closer == bidder {
            false
        } else {
            has_bid(auction.bids, bidder)
        },
{
    let before = auction.bids;
    let next = after(auction, operation).bids;
    if attempt(auction, operation) is Ok {
        match operation {
            Operation::PlaceBid { bidder: opener, wallet, amount, now } => {
                assert(next[before.len() as int].bidder == opener);
                if has_bid(before, bidder) {
                    let i = bid_index(before, bidder);
                    assert(next[i].bidder == bidder);
                }
                if has_bid(next, bidder) && opener != bidder {
                    let i = bid_index(next, bidder);
                    assert(before[i].bidder == bidder);
                }
            },
            Operation::CloseBid { bidder: closer } => {
                let k = bid_index(before, closer);
                if has_bid(next, bidder) {
                    let i = bid_index(next, bidder);
                    let j = if i < k {
                        i
                    } else {
                        i + 1
                    };
                    assert(before[j].bidder == bidder);
                }
                if has_bid(before, bidder) && closer != bidder {
                    let j = bid_index(before, bidder);
                    let i = if j < k {
                        j
                    } else {
                        j - 1
                    };
                    assert(next[i].bidder == bidder);
                }
            },
            Operation::UpdateBid { bidder: owner, .. } => {
                lemma_update_keeps_bidders(before, next, bidder);
            },
            Operation::WithdrawBid { bidder: owner, .. } => {
                lemma_update_keeps_bidders(before, next, bidder);
            },
            Operation::Settle { winner, .. } => {
                lemma_update_keeps_bidders(before, next, bidder);
            },
            _ => {},
        }
    }
}

/// Replacing a bid by one of the same bidder changes nothing about who has a
/// bid.
proof fn lemma_update_keeps_bidders(before: Seq<Bid>, next: Seq<Bid>, bidder: Identity)
    requires
        next.len() == before.len(),
        forall|j: int| 0 <= j < before.len() ==> (#[trigger] next[j]).bidder == before[j].bidder,
    ensures
        has_bid(next, bidder) == has_bid(before, bidder),
{
    if has_bid(before, bidder) {
        let j = bid_index(before, bidder);
        assert(next[j].bidder == bidder);
    }
    if has_bid(next, bidder) {
        let j = bid_index(next, bidder);
        assert(before[j].bidder == bidder);
    }
}

/// In a well-formed auction the auction state counts exactly the bids on
/// record that are active.
pub proof fn lemma_count_is_number_of_active_bids(auction: AuctionView)
    requires
        auction.wf(),
        auction.state is Some,
    ensures
        auction.state->0.active_bid_count == auction.bids.filter(|b: Bid| b.active).len(),
        auction.state->0.active_bid_count == active_count(auction.bids),
{
    lemma_active_count_is_filter_len(auction.bids);
}

/// In a well-formed auction the pooled balance holds exactly the sum of the
/// amounts of the active bids: nothing leaks and nothing is missing.
pub proof fn lemma_escrow_is_sum_of_active_bids(auction: AuctionView)
    requires
        auction.wf(),
        auction.state is Some,
    ensures
        auction.book.dom().contains(auction.state->0.escrow),
        auction.book[auction.state->0.escrow].amount == active_total(auction.bids),
{
}

/// A bid that was just opened is active and meets the floor.
pub proof fn lemma_placed_bid_meets_floor(ctx: PlaceBid, amount: u64, now: i64)
    requires
        ctx.rejection(amount) is None,
    ensures
        ctx.placed(amount, now).bid.active,
        ctx.placed(amount, now).bid.amount >= ctx.placed(amount, now).auction_state.minimum_bid,
{
}

/// A bid that was just adjusted is active and meets the floor: every
/// increase and every decrease that is accepted lands on or above it. A
/// change of zero leaves the amount as it is, so it meets the floor if the
/// bid did before; it is accepted also on a bid that the agent has left
/// below a raised floor.
pub proof fn lemma_adjusted_bid_meets_floor(ctx: UpdateBid, amount_change: i64, now: i64)
    requires
        ctx.rejection(amount_change) is None,
        amount_change == 0 ==> ctx.bid.amount >= ctx.auction_state.minimum_bid,
    ensures
        ctx.adjusted(amount_change, now).bid.active,
        ctx.adjusted(amount_change, now).bid.amount >= ctx.adjusted(
            amount_change,
            now,
        ).auction_state.minimum_bid,
{
}

/// An adjustment that would change the amount to one below the floor in
/// force is rejected, upwards as well as downwards, and changes nothing.
pub proof fn lemma_no_change_lands_below_floor(ctx: UpdateBid, amount_change: i64)
    requires
        amount_change != 0,
        ctx.bid.amount + amount_change < ctx.auction_state.minimum_bid,
    ensures
        ctx.rejection(amount_change) is Some,
{
}

/// A bid that was just withdrawn is no longer active, so the floor asks
/// nothing of it.
pub proof fn lemma_withdrawn_bid_is_inactive(ctx: WithdrawBid)
    ensures
        !ctx.withdrawn().bid.active,
{
}

/// A bid that the auction was just settled on is no longer active, so the
/// floor asks nothing of it.
pub proof fn lemma_settled_bid_is_inactive(ctx: Settle)
    ensures
        !ctx.settled().winning_bid.active,
{
}

/// In the auction as a whole, the bid that a bidder has just opened is on
/// record, active, and meets the floor.
pub proof fn lemma_opened_bid_is_on_record_above_floor(
    pre: AuctionView,
    bidder: Identity,
    wallet: Identity,
    amount: u64,
    now: i64,
)
    requires
        pre.wf(),
        pre.place_bid(bidder, wallet, amount, now) is Ok,
    ensures
        ({
            let post = pre.place_bid(bidder, wallet, amount, now)->Ok_0;
            let bid = post.bids[bid_index(post.bids, bidder)];
            &&& has_bid(post.bids, bidder)
            &&& bid.active
            &&& bid.amount == amount
            &&& bid.amount >= post.state->0.minimum_bid
        }),
{
    let post = pre.place_bid(bidder, wallet, amount, now)->Ok_0;
    pre.lemma_place_bid_preserves_wf(bidder, wallet, amount, now);
    lemma_bid_at(post.bids, pre.bids.len() as int);
}

/// In the auction as a whole, the bid that a bidder has just adjusted is on
/// record, active, and meets the floor; after a change of zero, provided
/// that it met the floor before.
pub proof fn lemma_adjusted_bid_is_on_record_above_floor(
    pre: AuctionView,
    bidder: Identity,
    wallet: Identity,
    amount_change: i64,
    now: i64,
)
    requires
        pre.wf(),
        pre.update_bid(bidder, wallet, amount_change, now) is Ok,
        amount_change == 0 ==> pre.bids[bid_index(pre.bids, bidder)].amount
            >= pre.state->0.minimum_bid,
    ensures
        ({
            let post = pre.update_bid(bidder, wallet, amount_change, now)->Ok_0;
            let bid = post.bids[bid_index(post.bids, bidder)];
            &&& has_bid(post.bids, bidder)
            &&& bid.active
            &&& bid.amount == pre.bids[bid_index(pre.bids, bidder)].amount + amount_change
            &&& bid.amount >= post.state->0.minimum_bid
        }),
{
    let post = pre.update_bid(bidder, wallet, amount_change, now)->Ok_0;
    pre.lemma_update_bid_preserves_wf(bidder, wallet, amount_change, now);
    lemma_bid_at(post.bids, bid_index(pre.bids, bidder));
}

/// Opening a bid and then withdrawing it to the balance that funded it
/// always succeeds and undoes the movement of funds: every balance, the
/// bidder's and the pooled one among them, holds what it held before the
/// bid was opened, the pooled balance having held `amount` more in between.
/// The auction state is as before, and the bid stays on record, inactive,
/// with its amount.
pub proof fn lemma_place_then_withdraw_restores(
    pre: AuctionView,
    bidder: Identity,
    wallet: Identity,
    amount: u64,
    now: i64,
)
    requires
        pre.wf(),
        pre.place_bid(bidder, wallet, amount, now) is Ok,
    ensures
        ({
            let mid = pre.place_bid(bidder, wallet, amount, now)->Ok_0;
            let escrow = pre.state->0.escrow;
            &&& mid.withdraw_bid(bidder, wallet) is Ok
            &&& mid.book[escrow].amount == pre.book[escrow].amount + amount
            &&& mid.book[wallet].amount == pre.book[wallet].amount - amount
            &&& mid.withdraw_bid(bidder, wallet)->Ok_0 == (AuctionView {
                bids: pre.bids.push(
                    Bid { bidder, amount, created_at: now, updated_at: now, active: false },
                ),
                ..pre
            })
        }),
{
    let mid = pre.place_bid(bidder, wallet, amount, now)->Ok_0;
    let last = pre.bids.len() as int;
    pre.lemma_place_bid_preserves_wf(bidder, wallet, amount, now);
    lemma_bid_at(mid.bids, last);
    let post = mid.withdraw_bid(bidder, wallet)->Ok_0;
    assert(post.book =~= pre.book);
    assert(post.bids =~= pre.bids.push(
        Bid { bidder, amount, created_at: now, updated_at: now, active: false },
    ));
}

/// An adjustment by zero of one's own active bid is accepted, moves no
/// funds and leaves the amount as it is, but records the time of the
/// adjustment.
pub proof fn lemma_zero_adjustment_only_stamps(ctx: UpdateBid, now: i64)
    requires
        ctx.bid.bidder == ctx.bidder,
        ctx.bid.active,
    ensures
        ctx.rejection(0) is None,
        ctx.movement(0) is None,
        ctx.adjusted(0, now) == (UpdateBid { bid: Bid { updated_at: now, ..ctx.bid }, ..ctx }),
{
}

} // verus!
