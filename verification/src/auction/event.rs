//! The notifications that the engine gives out, one for each committed
//! transition of an auction.

use vstd::prelude::*;
use crate::address::Address;
use crate::auction::record::Auction;

verus! {

/// A notification of one committed transition. Each is shaped from the record
/// as it stands right after the transition.
#[derive(Debug, PartialEq, Eq)]
pub enum AuctionEvent {
    /// An auction was created.
    Created { auction_id: u64, seller: Address, nft_contract: Address, nft_token_id: u64 },
    /// A bid was admitted and its bidder took the lead.
    BidPlaced { auction_id: u64, bidder: Address, amount: i128 },
    /// An auction was ended; the bidder and amount are its outcome.
    Ended { auction_id: u64, highest_bidder: Address, highest_bid: i128 },
    /// An auction was cancelled by its seller.
    Cancelled { auction_id: u64 },
}

impl AuctionEvent {
    /// The event that announces the creation of `auction`.
    pub open spec fn creation_of(auction: Auction) -> AuctionEvent {
        AuctionEvent::Created {
            auction_id: auction.id,
            seller: auction.seller,
            nft_contract: auction.nft_contract,
            nft_token_id: auction.nft_token_id,
        }
    }

    /// The event that announces the bid that leads `auction`.
    pub open spec fn bid_on(auction: Auction) -> AuctionEvent {
        AuctionEvent::BidPlaced {
            auction_id: auction.id,
            bidder: auction.highest_bidder,
            amount: auction.highest_bid,
        }
    }

    /// The event that announces the end of `auction` and its outcome.
    pub open spec fn end_of(auction: Auction) -> AuctionEvent {
        AuctionEvent::Ended {
            auction_id: auction.id,
            highest_bidder: auction.highest_bidder,
            highest_bid: auction.highest_bid,
        }
    }

    /// The event that announces the cancellation of `auction`.
    pub open spec fn cancellation_of(auction: Auction) -> AuctionEvent {
        AuctionEvent::Cancelled { auction_id: auction.id }
    }

    /// The identifier of the auction that the event is about.
    pub open spec fn subject(self) -> u64 {
        match self {
            AuctionEvent::Created { auction_id, .. } => auction_id,
            AuctionEvent::BidPlaced { auction_id, .. } => auction_id,
            AuctionEvent::Ended { auction_id, .. } => auction_id,
            AuctionEvent::Cancelled { auction_id } => auction_id,
        }
    }

    /// The topic under which the event is published.
    pub open spec fn topic_text(self) -> Seq<char> {
        match self {
            AuctionEvent::Created { .. } => "auction_created"@,
            AuctionEvent::BidPlaced { .. } => "bid_placed"@,
            AuctionEvent::Ended { .. } => "auction_ended"@,
            AuctionEvent::Cancelled { .. } => "auction_cancelled"@,
        }
    }

    /// The topic under which the event is published.
    pub fn topic(&self) -> (topic: &'static str)
        ensures
            topic@ == self.topic_text(),
    {
        match self {
            AuctionEvent::Created { .. } => "auction_created",
            AuctionEvent::BidPlaced { .. } => "bid_placed",
            AuctionEvent::Ended { .. } => "auction_ended",
            AuctionEvent::Cancelled { .. } => "auction_cancelled",
        }
    }

    /// Shapes the event for an auction that was just created.
    pub fn created(auction: &Auction) -> (event: AuctionEvent)
        ensures
            event == AuctionEvent::creation_of(*auction),
    {
        AuctionEvent::Created {
            auction_id: auction.id,
            seller: auction.seller.clone(),
            nft_contract: auction.nft_contract.clone(),
            nft_token_id: auction.nft_token_id,
        }
    }

    /// Shapes the event for the bid that was just admitted to `auction`.
    pub fn bid_placed(auction: &Auction) -> (event: AuctionEvent)
        ensures
            event == AuctionEvent::bid_on(*auction),
    {
        AuctionEvent::BidPlaced {
            auction_id: auction.id,
            bidder: auction.highest_bidder.clone(),
            amount: auction.highest_bid,
        }
    }

    /// Shapes the event for an auction that was just ended.
    pub fn ended(auction: &Auction) -> (event: AuctionEvent)
        ensures
            event == AuctionEvent::end_of(*auction),
    {
        AuctionEvent::Ended {
            auction_id: auction.id,
            highest_bidder: auction.highest_bidder.clone(),
            highest_bid: auction.highest_bid,
        }
    }

    /// Shapes the event for an auction that was just cancelled.
    pub fn cancelled(auction: &Auction) -> (event: AuctionEvent)
        ensures
            event == AuctionEvent::cancellation_of(*auction),
    {
        AuctionEvent::Cancelled { auction_id: auction.id }
    }

    /// The identifier of the auction that the event is about.
    pub fn auction_id(&self) -> (id: u64)
        ensures
            id == self.subject(),
    {
        match self {
            AuctionEvent::Created { auction_id, .. } => *auction_id,
            AuctionEvent::BidPlaced { auction_id, .. } => *auction_id,
            AuctionEvent::Ended { auction_id, .. } => *auction_id,
            AuctionEvent::Cancelled { auction_id } => *auction_id,
        }
    }
}

impl Clone for AuctionEvent {
    fn clone(&self) -> (copy: Self)
        ensures
            copy == *self,
    {
        match self {
            AuctionEvent::Created { auction_id, seller, nft_contract, nft_token_id } => {
                AuctionEvent::Created {
                    auction_id: *auction_id,
                    seller: seller.clone(),
                    nft_contract: nft_contract.clone(),
                    nft_token_id: *nft_token_id,
                }
            },
            AuctionEvent::BidPlaced { auction_id, bidder, amount } => {
                AuctionEvent::BidPlaced {
                    auction_id: *auction_id,
                    bidder: bidder.clone(),
                    amount: *amount,
                }
            },
            AuctionEvent::Ended { auction_id, highest_bidder, highest_bid } => {
                AuctionEvent::Ended {
                    auction_id: *auction_id,
                    highest_bidder: highest_bidder.clone(),
                    highest_bid: *highest_bid,
                }
            },
            AuctionEvent::Cancelled { auction_id } => {
                AuctionEvent::Cancelled { auction_id: *auction_id }
            },
        }
    }
}

} // verus!
