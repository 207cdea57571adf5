//! The auction as a whole, kept in memory: the auction state, the bids and a
//! ledger. Each operation finds the records it works on, decides, moves the
//! funds, and commits records and movement together or not at all.

use vstd::prelude::*;
use crate::error::Failure;
use crate::event::{BidPlaced, BidSettled, BidUpdated, BidWithdrawn};
use crate::identity::Identity;
use crate::instructions::{
    CloseBid, Initialize, PlaceBid, SetAgent, SetMinimumBid, Settle, UpdateBid, WithdrawBid,
};
use crate::ledger::{Authority, Ledger, Mint};
use crate::model::{bid_index, has_bid, lemma_bid_at, one_bid_each, AuctionView};
use crate::state::{AuctionState, Bid};

verus! {

/// One auction with its bids and its ledger.
pub struct Auction {
    state: Option<AuctionState>,
    bids: Vec<Bid>,
    ledger: Ledger,
}

impl View for Auction {
    type V = AuctionView;

    /// The auction as a whole, seen mathematically.
    closed spec fn view(&self) -> AuctionView {
        AuctionView {
            state: self.state,
            bids: self.bids@,
            mint: self.ledger@.mint,
            book: self.ledger@.book,
        }
    }
}

impl Auction {
    /// The ledger lists every balance once.
    pub closed spec fn ledger_sound(&self) -> bool {
        self.ledger.wf()
    }

    /// What every operation relies on and keeps: the ledger is sound, and
    /// the auction is well formed.
    pub open spec fn wf(&self) -> bool {
        &&& self.ledger_sound()
        &&& self@.wf()
    }

    /// An auction on the balances of `ledger`, not yet initialized and
    /// without bids.
    pub fn new(ledger: Ledger) -> (auction: Auction)
        requires
            ledger.wf(),
        ensures
            auction.wf(),
            auction@ == (AuctionView {
                state: None,
                bids: Seq::empty(),
                mint: ledger@.mint,
                book: ledger@.book,
            }),
    {
        Auction { state: None, bids: Vec::new(), ledger }
    }

    /// The auction state, once it has been created.
    pub fn state(&self) -> (r: Option<AuctionState>)
        ensures
            r == self@.state,
    {
        self.state
    }

    /// The place of the bid of `bidder` among the bids, if there is one.
    fn find(&self, bidder: &Identity) -> (r: Option<usize>)
        requires
            one_bid_each(self.bids@),
        ensures
            match r {
                Some(i) => {
                    &&& i < self.bids@.len()
                    &&& self.bids@[i as int].bidder == *bidder
                    &&& has_bid(self.bids@, *bidder)
                    &&& bid_index(self.bids@, *bidder) == i
                },
                None => !has_bid(self.bids@, *bidder),
            },
    {
        let mut i: usize = 0;
        while i < self.bids.len()
            invariant
                one_bid_each(self.bids@),
                i <= self.bids@.len(),
                forall|j: int| 0 <= j < i ==> self.bids@[j].bidder != *bidder,
            decreases self.bids@.len() - i,
        {
            if self.bids[i].bidder == *bidder {
                proof {
                    lemma_bid_at(self.bids@, i as int);
                }
                return Some(i);
            }
            i += 1;
        }
        None
    }

    /// The bid of `bidder`, if one is on record.
    pub fn bid(&self, bidder: &Identity) -> (r: Option<Bid>)
        requires
            self.wf(),
        ensures
            r == if has_bid(self@.bids, *bidder) {
                Some(self@.bids[bid_index(self@.bids, *bidder)])
            } else {
                None
            },
    {
        match self.find(bidder) {
            Some(i) => Some(self.bids[i]),
            None => None,
        }
    }

    /// The number of bids on record, active or not.
    pub fn bid_records(&self) -> (n: usize)
        ensures
            n == self@.bids.len(),
    {
        self.bids.len()
    }

    /// What the balance at `address` holds, if the ledger has one.
    pub fn balance(&self, address: &Identity) -> (r: Option<u64>)
        requires
            self.wf(),
        ensures
            r == if self@.book.dom().contains(*address) {
                Some(self@.book[*address].amount)
            } else {
                None
            },
    {
        match self.ledger.get(address) {
            Some(balance) => Some(balance.amount),
            None => None,
        }
    }

    /// Opens a balance at `address` that `owner` has authority over and that
    /// holds `amount`. Refused, with nothing changed, exactly when the
    /// address has a balance already.
    pub fn fund(&mut self, address: Identity, owner: Identity, amount: u64) -> (r: Result<
        (),
        Failure,
    >)
        requires
            old(self).wf(),
        ensures
            final(self).wf(),
            match r {
                Ok(()) => old(self)@.fund(address, owner, amount) == Ok::<AuctionView, Failure>(
                    final(self)@,
                ),
                Err(e) => {
                    &&& old(self)@.fund(address, owner, amount) == Err::<AuctionView, Failure>(e)
                    &&& final(self)@ == old(self)@
                },
            },
    {
        match self.ledger.open(address, Authority::Party(owner), amount) {
            Ok(()) => {
                proof {
                    old(self)@.lemma_fund_preserves_wf(address, owner, amount);
                }
                Ok(())
            },
            Err(e) => Err(Failure::Ledger(e)),
        }
    }
}

/// Creates the auction state with `agent` as agent and `minimum_bid` as
/// floor, and opens the pooled balance at `escrow`, empty and under the
/// custodian's authority. On failure nothing changes.
pub fn initialize(
    auction: &mut Auction,
    agent: Identity,
    usdc_mint: Mint,
    treasury: Identity,
    escrow: Identity,
    minimum_bid: u64,
) -> (r: Result<(), Failure>)
    requires
        old(auction).wf(),
    ensures
        final(auction).wf(),
        match r {
            Ok(()) => old(auction)@.initialize(agent, usdc_mint, treasury, escrow, minimum_bid)
                == Ok::<AuctionView, Failure>(final(auction)@),
            Err(e) => {
                &&& old(auction)@.initialize(agent, usdc_mint, treasury, escrow, minimum_bid)
                    == Err::<AuctionView, Failure>(e)
                &&& final(auction)@ == old(auction)@
            },
        },
{
    if auction.state.is_some() {
        return Err(Failure::RecordExists);
    }
    let mut ctx = Initialize {
        auction_state: AuctionState {
            agent,
            usdc_mint: usdc_mint.key,
            treasury,
            escrow,
            minimum_bid: 0,
            active_bid_count: 0,
        },
        usdc_mint,
        treasury,
        escrow,
        agent,
    };
    match crate::instructions::initialize::handler(&mut ctx, minimum_bid) {
        Ok(()) => {},
        Err(e) => {
            return Err(Failure::Rule(e));
        },
    }
    match auction.ledger.open(escrow, Authority::Custodian, 0) {
        Ok(()) => {},
        Err(e) => {
            return Err(Failure::Ledger(e));
        },
    }
    proof {
        old(auction)@.lemma_initialize_preserves_wf(
            agent,
            usdc_mint,
            treasury,
            escrow,
            minimum_bid,
        );
    }
    auction.state = Some(ctx.auction_state);
    Ok(())
}

/// Opens a bid of `amount` for `bidder` at time `now` and moves `amount`
/// from `wallet` into the pooled balance. On failure nothing changes.
pub fn place_bid(
    auction: &mut Auction,
    bidder: Identity,
    wallet: Identity,
    amount: u64,
    now: i64,
) -> (r: Result<BidPlaced, Failure>)
    requires
        old(auction).wf(),
    ensures
        final(auction).wf(),
        match r {
            Ok(event) => {
                &&& old(auction)@.place_bid(bidder, wallet, amount, now) == Ok::<
                    AuctionView,
                    Failure,
                >(final(auction)@)
                &&& event.bidder == bidder
                &&& event.amount == amount
            },
            Err(e) => {
                &&& old(auction)@.place_bid(bidder, wallet, amount, now) == Err::<
                    AuctionView,
                    Failure,
                >(e)
                &&& final(auction)@ == old(auction)@
            },
        },
{
    let state = match auction.state {
        Some(state) => state,
        None => {
            return Err(Failure::RecordMissing);
        },
    };
    if auction.find(&bidder).is_some() {
        return Err(Failure::RecordExists);
    }
    let mut ctx = PlaceBid {
        auction_state: state,
        bid: Bid { bidder, amount: 0, created_at: 0, updated_at: 0, active: false },
        bidder_usdc: wallet,
        bidder,
    };
    let (movement, event) = match crate::instructions::place_bid::handler(&mut ctx, amount, now) {
        Ok(outcome) => outcome,
        Err(e) => {
            return Err(Failure::Rule(e));
        },
    };
    match auction.ledger.transfer(&movement) {
        Ok(()) => {},
        Err(e) => {
            return Err(Failure::Ledger(e));
        },
    }
    proof {
        old(auction)@.lemma_place_bid_preserves_wf(bidder, wallet, amount, now);
    }
    auction.state = Some(ctx.auction_state);
    auction.bids.push(ctx.bid);
    Ok(event)
}

/// Adjusts the bid of `bidder` by `amount_change` at time `now` and moves
/// the difference between `wallet` and the pooled balance. On failure
/// nothing changes.
pub fn update_bid(
    auction: &mut Auction,
    bidder: Identity,
    wallet: Identity,
    amount_change: i64,
    now: i64,
) -> (r: Result<BidUpdated, Failure>)
    requires
        old(auction).wf(),
    ensures
        final(auction).wf(),
        match r {
            Ok(event) => {
                &&& old(auction)@.update_bid(bidder, wallet, amount_change, now) == Ok::<
                    AuctionView,
                    Failure,
                >(final(auction)@)
                &&& event.bidder == bidder
                &&& has_bid(final(auction)@.bids, bidder)
                &&& event.new_amount == final(auction)@.bids[bid_index(
                    final(auction)@.bids,
                    bidder,
                )].amount
            },
            Err(e) => {
                &&& old(auction)@.update_bid(bidder, wallet, amount_change, now) == Err::<
                    AuctionView,
                    Failure,
                >(e)
                &&& final(auction)@ == old(auction)@
            },
        },
{
    let state = match auction.state {
        Some(state) => state,
        None => {
            return Err(Failure::RecordMissing);
        },
    };
    let i: usize = match auction.find(&bidder) {
        Some(i) => i,
        None => {
            return Err(Failure::RecordMissing);
        },
    };
    let mut ctx = UpdateBid {
        auction_state: state,
        bid: auction.bids[i],
        bidder_usdc: wallet,
        bidder,
    };
    let (movement, event) = match crate::instructions::update_bid::handler(
        &mut ctx,
        amount_change,
        now,
    ) {
        Ok(outcome) => outcome,
        Err(e) => {
            return Err(Failure::Rule(e));
        },
    };
    match movement {
        Some(t) => match auction.ledger.transfer(&t) {
            Ok(()) => {},
            Err(e) => {
                return Err(Failure::Ledger(e));
            },
        },
        None => {},
    }
    proof {
        old(auction)@.lemma_update_bid_preserves_wf(bidder, wallet, amount_change, now);
    }
    auction.bids[i] = ctx.bid;
    proof {
        lemma_bid_at(auction.bids@, i as int);
    }
    Ok(event)
}

/// Withdraws the bid of `bidder` and moves its full amount from the pooled
/// balance to `wallet`. The record stays, inactive. On failure nothing
/// changes.
pub fn withdraw_bid(auction: &mut Auction, bidder: Identity, wallet: Identity) -> (r: Result<
    BidWithdrawn,
    Failure,
>)
    requires
        old(auction).wf(),
    ensures
        final(auction).wf(),
        match r {
            Ok(event) => {
                &&& old(auction)@.withdraw_bid(bidder, wallet) == Ok::<AuctionView, Failure>(
                    final(auction)@,
                )
                &&& event.bidder == bidder
                &&& event.amount == old(auction)@.bids[bid_index(old(auction)@.bids, bidder)].amount
            },
            Err(e) => {
                &&& old(auction)@.withdraw_bid(bidder, wallet) == Err::<AuctionView, Failure>(e)
                &&& final(auction)@ == old(auction)@
            },
        },
{
    let state = match auction.state {
        Some(state) => state,
        None => {
            return Err(Failure::RecordMissing);
        },
    };
    let i: usize = match auction.find(&bidder) {
        Some(i) => i,
        None => {
            return Err(Failure::RecordMissing);
        },
    };
    let mut ctx = WithdrawBid {
        auction_state: state,
        bid: auction.bids[i],
        bidder_usdc: wallet,
        bidder,
    };
    let (movement, event) = match crate::instructions::withdraw_bid::handler(&mut ctx) {
        Ok(outcome) => outcome,
        Err(e) => {
            return Err(Failure::Rule(e));
        },
    };
    match auction.ledger.transfer(&movement) {
        Ok(()) => {},
        Err(e) => {
            return Err(Failure::Ledger(e));
        },
    }
    proof {
        old(auction)@.lemma_withdraw_bid_preserves_wf(bidder, wallet);
    }
    auction.state = Some(ctx.auction_state);
    auction.bids[i] = ctx.bid;
    Ok(event)
}

/// Settles the auction on the bid of `winner`, on the word of `agent`, and
/// moves its full amount from the pooled balance to the treasury. The
/// record stays, inactive. On failure nothing changes.
pub fn settle(auction: &mut Auction, agent: Identity, winner: Identity) -> (r: Result<
    BidSettled,
    Failure,
>)
    requires
        old(auction).wf(),
    ensures
        final(auction).wf(),
        match r {
            Ok(event) => {
                &&& old(auction)@.settle(agent, winner) == Ok::<AuctionView, Failure>(
                    final(auction)@,
                )
                &&& event.winner == winner
                &&& event.amount == old(auction)@.bids[bid_index(old(auction)@.bids, winner)].amount
            },
            Err(e) => {
                &&& old(auction)@.settle(agent, winner) == Err::<AuctionView, Failure>(e)
                &&& final(auction)@ == old(auction)@
            },
        },
{
    let state = match auction.state {
        Some(state) => state,
        None => {
            return Err(Failure::RecordMissing);
        },
    };
    let i: usize = match auction.find(&winner) {
        Some(i) => i,
        None => {
            return Err(Failure::RecordMissing);
        },
    };
    let mut ctx = Settle { auction_state: state, winning_bid: auction.bids[i], agent };
    let (movement, event) = match crate::instructions::settle::handler(&mut ctx) {
        Ok(outcome) => outcome,
        Err(e) => {
            return Err(Failure::Rule(e));
        },
    };
    match auction.ledger.transfer(&movement) {
        Ok(()) => {},
        Err(e) => {
            return Err(Failure::Ledger(e));
        },
    }
    proof {
        old(auction)@.lemma_settle_preserves_wf(agent, winner);
    }
    auction.state = Some(ctx.auction_state);
    auction.bids[i] = ctx.winning_bid;
    Ok(event)
}

/// Closes the bid of `bidder`: its record is removed, and the bidder may
/// open a bid again. No funds move. On failure nothing changes.
pub fn close_bid(auction: &mut Auction, bidder: Identity) -> (r: Result<(), Failure>)
    requires
        old(auction).wf(),
    ensures
        final(auction).wf(),
        match r {
            Ok(()) => old(auction)@.close_bid(bidder) == Ok::<AuctionView, Failure>(
                final(auction)@,
            ),
            Err(e) => {
                &&& old(auction)@.close_bid(bidder) == Err::<AuctionView, Failure>(e)
                &&& final(auction)@ == old(auction)@
            },
        },
{
    if auction.state.is_none() {
        return Err(Failure::RecordMissing);
    }
    let i: usize = match auction.find(&bidder) {
        Some(i) => i,
        None => {
            return Err(Failure::RecordMissing);
        },
    };
    let ctx = CloseBid { bid: auction.bids[i], bidder };
    match crate::instructions::close_bid::handler(&ctx) {
        Ok(()) => {},
        Err(e) => {
            return Err(Failure::Rule(e));
        },
    }
    proof {
        old(auction)@.lemma_close_bid_preserves_wf(bidder);
    }
    auction.bids.remove(i);
    Ok(())
}

/// Sets the floor to `minimum_bid`, on the word of `agent`. Existing bids
/// are left as they are. On failure nothing changes.
pub fn set_minimum_bid(auction: &mut Auction, agent: Identity, minimum_bid: u64) -> (r: Result<
    (),
    Failure,
>)
    requires
        old(auction).wf(),
    ensures
        final(auction).wf(),
        match r {
            Ok(()) => old(auction)@.set_minimum_bid(agent, minimum_bid) == Ok::<
                AuctionView,
                Failure,
            >(final(auction)@),
            Err(e) => {
                &&& old(auction)@.set_minimum_bid(agent, minimum_bid) == Err::<
                    AuctionView,
                    Failure,
                >(e)
                &&& final(auction)@ == old(auction)@
            },
        },
{
    let state = match auction.state {
        Some(state) => state,
        None => {
            return Err(Failure::RecordMissing);
        },
    };
    let mut ctx = SetMinimumBid { auction_state: state, agent };
    match crate::instructions::set_minimum_bid::handler(&mut ctx, minimum_bid) {
        Ok(()) => {},
        Err(e) => {
            return Err(Failure::Rule(e));
        },
    }
    auction.state = Some(ctx.auction_state);
    Ok(())
}

/// Makes `new_agent` the agent, on the word of `agent`. On failure nothing
/// changes.
pub fn set_agent(auction: &mut Auction, agent: Identity, new_agent: Identity) -> (r: Result<
    (),
    Failure,
>)
    requires
        old(auction).wf(),
    ensures
        final(auction).wf(),
        match r {
            Ok(()) => old(auction)@.set_agent(agent, new_agent) == Ok::<AuctionView, Failure>(
                final(auction)@,
            ),
            Err(e) => {
                &&& old(auction)@.set_agent(agent, new_agent) == Err::<AuctionView, Failure>(e)
                &&& final(auction)@ == old(auction)@
            },
        },
{
    let state = match auction.state {
        Some(state) => state,
        None => {
            return Err(Failure::RecordMissing);
        },
    };
    let mut ctx = SetAgent { auction_state: state, agent, new_agent };
    match crate::instructions::set_agent::handler(&mut ctx) {
        Ok(()) => {},
        Err(e) => {
            return Err(Failure::Rule(e));
        },
    }
    auction.state = Some(ctx.auction_state);
    Ok(())
}

} // verus!
