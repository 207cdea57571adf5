//! The auction as a whole, seen mathematically: its state, its bids and the
//! balances of its ledger, what each operation makes of them, and what holds
//! of them at all times.

use vstd::prelude::*;
use crate::error::Failure;
use crate::identity::Identity;
use crate::instructions::{
    CloseBid, Initialize, PlaceBid, SetAgent, SetMinimumBid, Settle, UpdateBid, WithdrawBid,
};
use crate::ledger::{
    transfer_rejection, transferred, Authority, Balance, LedgerError, Mint, Transfer,
};
use crate::state::{AuctionState, Bid};

verus! {

/// 1 for an active bid, 0 for an inactive one.
pub open spec fn unit(bid: Bid) -> nat {
    if bid.active {
        1
    } else {
        0
    }
}

/// What a bid has locked: its amount while active, nothing afterwards.
pub open spec fn locked(bid: Bid) -> nat {
    if bid.active {
        bid.amount as nat
    } else {
        0
    }
}

/// The number of active bids among `bids`.
pub open spec fn active_count(bids: Seq<Bid>) -> nat
    decreases bids.len(),
{
    if bids.len() == 0 {
        0
    } else {
        active_count(bids.drop_last()) + unit(bids.last())
    }
}

/// The sum of the amounts of the active bids among `bids`.
pub open spec fn active_total(bids: Seq<Bid>) -> nat
    decreases bids.len(),
{
    if bids.len() == 0 {
        0
    } else {
        active_total(bids.drop_last()) + locked(bids.last())
    }
}

/// No bidder has two bids among `bids`.
pub open spec fn one_bid_each(bids: Seq<Bid>) -> bool {
    forall|i: int, j: int|
        0 <= i < bids.len() && 0 <= j < bids.len() && i != j ==> bids[i].bidder != bids[j].bidder
}

/// `bidder` has a bid among `bids`.
pub open spec fn has_bid(bids: Seq<Bid>, bidder: Identity) -> bool {
    exists|i: int| 0 <= i < bids.len() && #[trigger] bids[i].bidder == bidder
}

/// The place among `bids` of the bid of `bidder`, who has one.
pub open spec fn bid_index(bids: Seq<Bid>, bidder: Identity) -> int {
    choose|i: int| 0 <= i < bids.len() && #[trigger] bids[i].bidder == bidder
}

/// The bid at place `i` is the one that is found for its bidder.
pub proof fn lemma_bid_at(bids: Seq<Bid>, i: int)
    requires
        one_bid_each(bids),
        0 <= i < bids.len(),
    ensures
        has_bid(bids, bids[i].bidder),
        bid_index(bids, bids[i].bidder) == i,
{
    assert(has_bid(bids, bids[i].bidder));
}

/// The active bids are counted one by one: the count is the length of the
/// sequence of those bids that are active.
pub proof fn lemma_active_count_is_filter_len(bids: Seq<Bid>)
    ensures
        active_count(bids) == bids.filter(|b: Bid| b.active).len(),
    decreases bids.len(),
{
    reveal(Seq::filter);
    if bids.len() > 0 {
        lemma_active_count_is_filter_len(bids.drop_last());
    }
}

/// A further bid adds its unit to the count and what it has locked to the
/// total.
pub proof fn lemma_active_push(bids: Seq<Bid>, bid: Bid)
    ensures
        active_count(bids.push(bid)) == active_count(bids) + unit(bid),
        active_total(bids.push(bid)) == active_total(bids) + locked(bid),
{
    assert(bids.push(bid).drop_last() =~= bids);
}

/// Replacing one bid changes count and total by the difference between the
/// new bid and the old one.
pub proof fn lemma_active_update(bids: Seq<Bid>, i: int, bid: Bid)
    requires
        0 <= i < bids.len(),
    ensures
        active_count(bids.update(i, bid)) == active_count(bids) - unit(bids[i]) + unit(bid),
        active_total(bids.update(i, bid)) == active_total(bids) - locked(bids[i]) + locked(bid),
    decreases bids.len(),
{
    let after = bids.update(i, bid);
    if i == bids.len() - 1 {
        assert(after.drop_last() =~= bids.drop_last());
    } else {
        assert(after.drop_last() =~= bids.drop_last().update(i, bid));
        lemma_active_update(bids.drop_last(), i, bid);
    }
}

/// Removing one bid takes its unit from the count and what it has locked
/// from the total.
pub proof fn lemma_active_remove(bids: Seq<Bid>, i: int)
    requires
        0 <= i < bids.len(),
    ensures
        active_count(bids.remove(i)) == active_count(bids) - unit(bids[i]),
        active_total(bids.remove(i)) == active_total(bids) - locked(bids[i]),
    decreases bids.len(),
{
    let after = bids.remove(i);
    if i == bids.len() - 1 {
        assert(after =~= bids.drop_last());
    } else {
        assert(after.drop_last() =~= bids.drop_last().remove(i));
        assert(after.last() == bids.last());
        lemma_active_remove(bids.drop_last(), i);
    }
}

/// The auction as a whole.
pub struct AuctionView {
    /// The auction state, once it has been created.
    pub state: Option<AuctionState>,
    /// The bids on record, in the order in which they were opened.
    pub bids: Seq<Bid>,
    /// The asset of the ledger.
    pub mint: Mint,
    /// The balances of the ledger, by address.
    pub book: Map<Identity, Balance>,
}

impl AuctionView {
    /// The auction state counts exactly the bids that are active.
    pub open spec fn counts_agree(self) -> bool {
        self.state matches Some(state) ==> state.active_bid_count == active_count(self.bids)
    }

    /// The pooled balance holds exactly what the active bids have locked, and
    /// only the custodian has authority over it.
    pub open spec fn escrow_backed(self) -> bool {
        self.state matches Some(state) ==> {
            &&& self.book.dom().contains(state.escrow)
            &&& self.book[state.escrow].owner == Authority::Custodian
            &&& self.book[state.escrow].amount == active_total(self.bids)
        }
    }

    /// What holds of the auction at all times: no bidder has two bids, there
    /// are no bids before there is an auction state, the count of active bids
    /// is right, and the pooled balance backs the active bids one for one.
    pub open spec fn wf(self) -> bool {
        &&& one_bid_each(self.bids)
        &&& self.state is None ==> self.bids.len() == 0
        &&& self.counts_agree()
        &&& self.escrow_backed()
    }

    /// A balance that `owner` has authority over is opened at `address` with
    /// `amount` in it.
    pub open spec fn fund(self, address: Identity, owner: Identity, amount: u64) -> Result<
        AuctionView,
        Failure,
    > {
        if self.book.dom().contains(address) {
            Err(Failure::Ledger(LedgerError::BalanceExists))
        } else {
            Ok(
                AuctionView {
                    book: self.book.insert(
                        address,
                        Balance { address, owner: Authority::Party(owner), amount },
                    ),
                    ..self
                },
            )
        }
    }

    /// The records become those of `next` and the movement `t` is carried
    /// out, unless the ledger refuses it.
    pub open spec fn committed(self, next: AuctionView, t: Transfer) -> Result<
        AuctionView,
        Failure,
    > {
        match transfer_rejection(self.mint, self.book, t) {
            Some(e) => Err(Failure::Ledger(e)),
            None => Ok(AuctionView { book: transferred(self.book, t), ..next }),
        }
    }

    /// What the initialization works on.
    pub open spec fn initializing(
        agent: Identity,
        usdc_mint: Mint,
        treasury: Identity,
        escrow: Identity,
    ) -> Initialize {
        Initialize {
            auction_state: AuctionState {
                agent,
                usdc_mint: usdc_mint.key,
                treasury,
                escrow,
                minimum_bid: 0,
                active_bid_count: 0,
            },
            usdc_mint,
            treasury,
            escrow,
            agent,
        }
    }

    /// The auction state is created and the pooled balance is opened, empty
    /// and under the custodian's authority.
    pub open spec fn initialize(
        self,
        agent: Identity,
        usdc_mint: Mint,
        treasury: Identity,
        escrow: Identity,
        minimum_bid: u64,
    ) -> Result<AuctionView, Failure> {
        let ctx = Self::initializing(agent, usdc_mint, treasury, escrow);
        if self.state is Some {
            Err(Failure::RecordExists)
        } else {
            match ctx.rejection() {
                Some(e) => Err(Failure::Rule(e)),
                None => if self.book.dom().contains(escrow) {
                    Err(Failure::Ledger(LedgerError::BalanceExists))
                } else {
                    Ok(
                        AuctionView {
                            state: Some(ctx.created(minimum_bid)),
                            book: self.book.insert(
                                escrow,
                                Balance { address: escrow, owner: Authority::Custodian, amount: 0 },
                            ),
                            ..self
                        },
                    )
                },
            }
        }
    }

    /// What the opening of a bid by `bidder`, funded from `wallet`, works on.
    pub open spec fn opening(state: AuctionState, bidder: Identity, wallet: Identity) -> PlaceBid {
        PlaceBid {
            auction_state: state,
            bid: Bid { bidder, amount: 0, created_at: 0, updated_at: 0, active: false },
            bidder_usdc: wallet,
            bidder,
        }
    }

    /// `bidder` opens a bid of `amount`, funded from `wallet`, at time `now`.
    pub open spec fn place_bid(
        self,
        bidder: Identity,
        wallet: Identity,
        amount: u64,
        now: i64,
    ) -> Result<AuctionView, Failure> {
        if self.state is None {
            Err(Failure::RecordMissing)
        } else if has_bid(self.bids, bidder) {
            Err(Failure::RecordExists)
        } else {
            let ctx = Self::opening(self.state->0, bidder, wallet);
            let after = ctx.placed(amount, now);
            match ctx.rejection(amount) {
                Some(e) => Err(Failure::Rule(e)),
                None => self.committed(
                    AuctionView {
                        state: Some(after.auction_state),
                        bids: self.bids.push(after.bid),
                        ..self
                    },
                    ctx.movement(amount),
                ),
            }
        }
    }

    /// `bidder` adjusts the own bid by `amount_change` at time `now`; funds
    /// come from `wallet` or go back to it.
    pub open spec fn update_bid(
        self,
        bidder: Identity,
        wallet: Identity,
        amount_change: i64,
        now: i64,
    ) -> Result<AuctionView, Failure> {
        if self.state is None || !has_bid(self.bids, bidder) {
            Err(Failure::RecordMissing)
        } else {
            let i = bid_index(self.bids, bidder);
            let ctx = UpdateBid {
                auction_state: self.state->0,
                bid: self.bids[i],
                bidder_usdc: wallet,
                bidder,
            };
            let next = AuctionView {
                bids: self.bids.update(i, ctx.adjusted(amount_change, now).bid),
                ..self
            };
            match ctx.rejection(amount_change) {
                Some(e) => Err(Failure::Rule(e)),
                None => match ctx.movement(amount_change) {
                    Some(t) => self.committed(next, t),
                    None => Ok(next),
                },
            }
        }
    }

    /// `bidder` withdraws the own bid; its funds go to `wallet`.
    pub open spec fn withdraw_bid(self, bidder: Identity, wallet: Identity) -> Result<
        AuctionView,
        Failure,
    > {
        if self.state is None || !has_bid(self.bids, bidder) {
            Err(Failure::RecordMissing)
        } else {
            let i = bid_index(self.bids, bidder);
            let ctx = WithdrawBid {
                auction_state: self.state->0,
                bid: self.bids[i],
                bidder_usdc: wallet,
                bidder,
            };
            let after = ctx.withdrawn();
            match ctx.rejection() {
                Some(e) => Err(Failure::Rule(e)),
                None => self.committed(
                    AuctionView {
                        state: Some(after.auction_state),
                        bids: self.bids.update(i, after.bid),
                        ..self
                    },
                    ctx.movement(),
                ),
            }
        }
    }

    /// `agent` settles the auction on the bid of `winner`.
    pub open spec fn settle(self, agent: Identity, winner: Identity) -> Result<
        AuctionView,
        Failure,
    > {
        if self.state is None || !has_bid(self.bids, winner) {
            Err(Failure::RecordMissing)
        } else {
            let i = bid_index(self.bids, winner);
            let ctx = Settle { auction_state: self.state->0, winning_bid: self.bids[i], agent };
            let after = ctx.settled();
            match ctx.rejection() {
                Some(e) => Err(Failure::Rule(e)),
                None => self.committed(
                    AuctionView {
                        state: Some(after.auction_state),
                        bids: self.bids.update(i, after.winning_bid),
                        ..self
                    },
                    ctx.movement(),
                ),
            }
        }
    }

    /// `bidder` closes the own bid, whose record is removed.
    pub open spec fn close_bid(self, bidder: Identity) -> Result<AuctionView, Failure> {
        if self.state is None || !has_bid(self.bids, bidder) {
            Err(Failure::RecordMissing)
        } else {
            let i = bid_index(self.bids, bidder);
            let ctx = CloseBid { bid: self.bids[i], bidder };
            match ctx.rejection() {
                Some(e) => Err(Failure::Rule(e)),
                None => Ok(AuctionView { bids: self.bids.remove(i), ..self }),
            }
        }
    }

    /// `agent` sets the floor to `minimum_bid`.
    pub open spec fn set_minimum_bid(self, agent: Identity, minimum_bid: u64) -> Result<
        AuctionView,
        Failure,
    > {
        if self.state is None {
            Err(Failure::RecordMissing)
        } else {
            let ctx = SetMinimumBid { auction_state: self.state->0, agent };
            match ctx.rejection() {
                Some(e) => Err(Failure::Rule(e)),
                None => Ok(
                    AuctionView {
                        state: Some(ctx.with_minimum(minimum_bid).auction_state),
                        ..self
                    },
                ),
            }
        }
    }

    /// `agent` hands the agent's role to `new_agent`.
    pub open spec fn set_agent(self, agent: Identity, new_agent: Identity) -> Result<
        AuctionView,
        Failure,
    > {
        if self.state is None {
            Err(Failure::RecordMissing)
        } else {
            let ctx = SetAgent { auction_state: self.state->0, agent, new_agent };
            match ctx.rejection() {
                Some(e) => Err(Failure::Rule(e)),
                None => Ok(AuctionView { state: Some(ctx.handed_over().auction_state), ..self }),
            }
        }
    }

    /// Opening a balance keeps the auction well formed.
    pub proof fn lemma_fund_preserves_wf(self, address: Identity, owner: Identity, amount: u64)
        requires
            self.wf(),
            self.fund(address, owner, amount) is Ok,
        ensures
            self.fund(address, owner, amount)->Ok_0.wf(),
    {
    }

    /// Initialization makes a well-formed auction with no active bid and an
    /// empty pooled balance.
    pub proof fn lemma_initialize_preserves_wf(
        self,
        agent: Identity,
        usdc_mint: Mint,
        treasury: Identity,
        escrow: Identity,
        minimum_bid: u64,
    )
        requires
            self.wf(),
            self.initialize(agent, usdc_mint, treasury, escrow, minimum_bid) is Ok,
        ensures
            self.initialize(agent, usdc_mint, treasury, escrow, minimum_bid)->Ok_0.wf(),
    {
    }

    /// Opening a bid keeps the count of active bids right and the pooled
    /// balance equal to what the active bids have locked.
    pub proof fn lemma_place_bid_preserves_wf(
        self,
        bidder: Identity,
        wallet: Identity,
        amount: u64,
        now: i64,
    )
        requires
            self.wf(),
            self.place_bid(bidder, wallet, amount, now) is Ok,
        ensures
            self.place_bid(bidder, wallet, amount, now)->Ok_0.wf(),
    {
        let ctx = Self::opening(self.state->0, bidder, wallet);
        let bid = ctx.placed(amount, now).bid;
        lemma_active_push(self.bids, bid);
        let after = self.bids.push(bid);
        assert forall|i: int, j: int|
            0 <= i < after.len() && 0 <= j < after.len() && i != j implies after[i].bidder
            != after[j].bidder by {
            if i < self.bids.len() {
                assert(self.bids[i].bidder == after[i].bidder);
            }
            if j < self.bids.len() {
                assert(self.bids[j].bidder == after[j].bidder);
            }
        }
    }

    /// Adjusting a bid keeps the count of active bids right and the pooled
    /// balance equal to what the active bids have locked.
    pub proof fn lemma_update_bid_preserves_wf(
        self,
        bidder: Identity,
        wallet: Identity,
        amount_change: i64,
        now: i64,
    )
        requires
            self.wf(),
            self.update_bid(bidder, wallet, amount_change, now) is Ok,
        ensures
            self.update_bid(bidder, wallet, amount_change, now)->Ok_0.wf(),
    {
        let i = bid_index(self.bids, bidder);
        let ctx = UpdateBid {
            auction_state: self.state->0,
            bid: self.bids[i],
            bidder_usdc: wallet,
            bidder,
        };
        lemma_active_update(self.bids, i, ctx.adjusted(amount_change, now).bid);
    }

    /// Withdrawing a bid keeps the count of active bids right and the pooled
    /// balance equal to what the active bids have locked.
    pub proof fn lemma_withdraw_bid_preserves_wf(self, bidder: Identity, wallet: Identity)
        requires
            self.wf(),
            self.withdraw_bid(bidder, wallet) is Ok,
        ensures
            self.withdraw_bid(bidder, wallet)->Ok_0.wf(),
    {
        let i = bid_index(self.bids, bidder);
        let ctx = WithdrawBid {
            auction_state: self.state->0,
            bid: self.bids[i],
            bidder_usdc: wallet,
            bidder,
        };
        lemma_active_update(self.bids, i, ctx.withdrawn().bid);
    }

    /// Settling keeps the count of active bids right and the pooled balance
    /// equal to what the active bids have locked.
    pub proof fn lemma_settle_preserves_wf(self, agent: Identity, winner: Identity)
        requires
            self.wf(),
            self.settle(agent, winner) is Ok,
        ensures
            self.settle(agent, winner)->Ok_0.wf(),
    {
        let i = bid_index(self.bids, winner);
        let ctx = Settle { auction_state: self.state->0, winning_bid: self.bids[i], agent };
        lemma_active_update(self.bids, i, ctx.settled().winning_bid);
    }

    /// Closing a bid keeps the count of active bids right and the pooled
    /// balance equal to what the active bids have locked: only an inactive
    /// bid can be closed.
    pub proof fn lemma_close_bid_preserves_wf(self, bidder: Identity)
        requires
            self.wf(),
            self.close_bid(bidder) is Ok,
        ensures
            self.close_bid(bidder)->Ok_0.wf(),
    {
        let i = bid_index(self.bids, bidder);
        lemma_active_remove(self.bids, i);
    }

    /// Changing the floor keeps the auction well formed.
    pub proof fn lemma_set_minimum_bid_preserves_wf(self, agent: Identity, minimum_bid: u64)
        requires
            self.wf(),
            self.set_minimum_bid(agent, minimum_bid) is Ok,
        ensures
            self.set_minimum_bid(agent, minimum_bid)->Ok_0.wf(),
    {
    }

    /// Changing the agent keeps the auction well formed.
    pub proof fn lemma_set_agent_preserves_wf(self, agent: Identity, new_agent: Identity)
        requires
            self.wf(),
            self.set_agent(agent, new_agent) is Ok,
        ensures
            self.set_agent(agent, new_agent)->Ok_0.wf(),
    {
    }
}

} // verus!
