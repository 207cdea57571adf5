//! The reasons for which an operation fails.

use vstd::prelude::*;
use crate::ledger::LedgerError;

verus! {

/// Why an operation was rejected. Every rejection is final for the attempted
/// operation and leaves all state as it was.
#[derive(Clone, Copy, Debug, PartialEq, Eq, Structural)]
pub enum AuctionError {
    /// The caller is not the agent recorded in the auction state.
    OnlyAgent,
    /// A new bid is below the minimum bid.
    BidTooLow,
    /// The bid has been withdrawn or settled already.
    BidNotActive,
    /// A change of amount, up or down, would leave the bid below the
    /// minimum bid.
    AmountBelowMinimum,
    /// A decrease exceeds the amount that the bid has locked.
    InsufficientEscrow,
    /// The bid belongs to another bidder.
    WrongBidder,
    /// The bid still has funds locked and cannot be closed.
    BidStillActive,
    /// A counter or an amount would leave its range.
    ArithmeticOverflow,
    /// The asset does not have the decimal precision that the auction assumes.
    InvalidMintDecimals,
    /// The change of amount has no representable magnitude.
    InvalidAmountChange,
}

impl AuctionError {
    /// The text shown to a user for this rejection.
    pub open spec fn message_text(self) -> Seq<char> {
        match self {
            AuctionError::OnlyAgent => "Only the agent can perform this action"@,
            AuctionError::BidTooLow => "Bid below minimum"@,
            AuctionError::BidNotActive => "Bid is not active"@,
            AuctionError::AmountBelowMinimum => "Bid amount would fall below minimum"@,
            AuctionError::InsufficientEscrow => "Insufficient escrow balance"@,
            AuctionError::WrongBidder => "Bid does not belong to this bidder"@,
            AuctionError::BidStillActive => "Bid is still active — withdraw first or wait to win"@,
            AuctionError::ArithmeticOverflow => "Arithmetic overflow or underflow"@,
            AuctionError::InvalidMintDecimals => "Invalid mint decimals"@,
            AuctionError::InvalidAmountChange => "Invalid amount change"@,
        }
    }

    /// Returns the text shown to a user for this rejection.
    pub fn message(&self) -> (text: &'static str)
        ensures
            text@ == self.message_text(),
    {
        match self {
            AuctionError::OnlyAgent => "Only the agent can perform this action",
            AuctionError::BidTooLow => "Bid below minimum",
            AuctionError::BidNotActive => "Bid is not active",
            AuctionError::AmountBelowMinimum => "Bid amount would fall below minimum",
            AuctionError::InsufficientEscrow => "Insufficient escrow balance",
            AuctionError::WrongBidder => "Bid does not belong to this bidder",
            AuctionError::BidStillActive => "Bid is still active — withdraw first or wait to win",
            AuctionError::ArithmeticOverflow => "Arithmetic overflow or underflow",
            AuctionError::InvalidMintDecimals => "Invalid mint decimals",
            AuctionError::InvalidAmountChange => "Invalid amount change",
        }
    }
}

/// Why an operation on the auction as a whole fails.
#[derive(Clone, Copy, Debug, PartialEq, Eq, Structural)]
pub enum Failure {
    /// A rule of the auction rejects the operation.
    Rule(AuctionError),
    /// The ledger refuses the movement of funds that belongs to the
    /// operation.
    Ledger(LedgerError),
    /// The record that the operation would create exists already: the
    /// auction state, or a bid of this bidder.
    RecordExists,
    /// The record that the operation works on does not exist: the auction
    /// state, or a bid of this bidder.
    RecordMissing,
}

} // verus!
