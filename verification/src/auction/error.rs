//! The ways in which an auction operation is refused.

use vstd::prelude::*;

verus! {

/// Why an operation on the auction engine was refused. Every refusal is final
/// for the call that met it, and leaves the state as it was.
#[derive(Clone, Copy, Debug, PartialEq, Eq, Structural)]
pub enum AuctionError {
    /// The caller may not act for the principal that the call names.
    Unauthorized,
    /// No auction has the given identifier.
    NotFound,
    /// The auction is no longer active.
    InvalidState,
    /// The auction's time window has elapsed.
    Expired,
    /// The auction's time window has not elapsed yet.
    StillActive,
    /// The bid does not exceed the leading bid.
    BidTooLow,
    /// The bid exceeds the leading bid by less than the minimum increment.
    BidBelowIncrement,
    /// The principal is not the seller of the auction.
    NotSeller,
    /// The auction has recorded bids and can no longer be cancelled.
    HasBids,
}

impl AuctionError {
    /// The sentence that tells a caller why the call was refused.
    pub open spec fn text(self) -> Seq<char> {
        match self {
            AuctionError::Unauthorized => "Caller is not authorized"@,
            AuctionError::NotFound => "Auction does not exist"@,
            AuctionError::InvalidState => "Auction is not active"@,
            AuctionError::Expired => "Auction has ended"@,
            AuctionError::StillActive => "Auction is still active"@,
            AuctionError::BidTooLow => "Bid must be higher than current highest bid"@,
            AuctionError::BidBelowIncrement => "Bid must be at least the minimum increment"@,
            AuctionError::NotSeller => "Not the seller"@,
            AuctionError::HasBids => "Cannot cancel auction with existing bids"@,
        }
    }

    /// The sentence that tells a caller why the call was refused.
    pub fn message(&self) -> (text: &'static str)
        ensures
            text@ == self.text(),
    {
        match self {
            AuctionError::Unauthorized => "Caller is not authorized",
            AuctionError::NotFound => "Auction does not exist",
            AuctionError::InvalidState => "Auction is not active",
            AuctionError::Expired => "Auction has ended",
            AuctionError::StillActive => "Auction is still active",
            AuctionError::BidTooLow => "Bid must be higher than current highest bid",
            AuctionError::BidBelowIncrement => "Bid must be at least the minimum increment",
            AuctionError::NotSeller => "Not the seller",
            AuctionError::HasBids => "Cannot cancel auction with existing bids",
        }
    }
}

} // verus!
