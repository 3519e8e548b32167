//! The mathematical model of the auction engine.
//!
//! A `Market` is everything the engine keeps between calls: the auction
//! records, their bid logs, the listing of each seller, the identifier counter
//! and the events given out so far. Each operation of the engine is described
//! here twice over: by a verdict, which says whether the call is accepted and
//! otherwise why not, and by the state that an accepted call leaves behind.
//! A refused call leaves the state as it was.

use vstd::prelude::*;
use crate::address::Address;
use crate::auction::error::AuctionError;
use crate::auction::event::AuctionEvent;
use crate::auction::record::{Auction, AuctionStatus, Bid};
use crate::index::filed_under;

verus! {

/// The state of the auction engine as a mathematical value.
#[verifier::ext_equal]
pub struct Market {
    /// The administrator named at bootstrap.
    pub admin: Address,
    /// The identifier that the next auction will get.
    pub next_auction_id: u64,
    /// The record of each auction, by identifier.
    pub auctions: Map<u64, Auction>,
    /// The bid log of each auction, oldest bid first.
    pub bids: Map<u64, Seq<Bid>>,
    /// The auctions that each seller has created, oldest first.
    pub listings: Map<Seq<char>, Seq<u64>>,
    /// Every event given out so far, oldest first.
    pub events: Seq<AuctionEvent>,
}

/// The amount by which the bid at position `i` of a log exceeds the one
/// before it.
pub open spec fn raise_at(log: Seq<Bid>, i: int) -> int {
    log[i].amount - log[i - 1].amount
}

/// What ties a record to its bid log: the leader is the latest bidder, or the
/// seller while there is no bid; the amounts rise strictly, each by at least
/// the minimum increment; every bid was made before the closing time; and an
/// auction with bids is never cancelled.
pub open spec fn log_matches(auction: Auction, log: Seq<Bid>) -> bool {
    &&& log.len() == 0 ==> auction.highest_bidder@ == auction.seller@
    &&& log.len() > 0 ==> {
        &&& log.last().amount == auction.highest_bid
        &&& log.last().bidder@ == auction.highest_bidder@
    }
    &&& forall|i: int, j: int| 0 <= i < j < log.len() ==> log[i].amount < log[j].amount
    &&& forall|i: int| 0 < i < log.len() ==> #[trigger] raise_at(log, i) >= auction.min_bid_increment
    &&& forall|i: int| 0 <= i < log.len() ==> (#[trigger] log[i]).timestamp < auction.end_time
    &&& auction.status == AuctionStatus::Cancelled ==> log.len() == 0
}

impl Market {
    /// The state right after bootstrap: no auctions, and the first identifier
    /// to be given out is 1.
    pub open spec fn fresh(admin: Address) -> Market {
        Market {
            admin,
            next_auction_id: 1,
            auctions: Map::empty(),
            bids: Map::empty(),
            listings: Map::empty(),
            events: Seq::empty(),
        }
    }

    /// Whether an auction with this identifier exists.
    pub open spec fn has(self, id: u64) -> bool {
        self.auctions.dom().contains(id)
    }

    /// The bid log of an auction; empty for an identifier that names none.
    pub open spec fn bid_log(self, id: u64) -> Seq<Bid> {
        if self.bids.dom().contains(id) {
            self.bids[id]
        } else {
            Seq::empty()
        }
    }

    /// The auctions that a seller has created; empty for one that has none.
    pub open spec fn listing(self, seller: Seq<char>) -> Seq<u64> {
        filed_under(self.listings, seller)
    }

    /// Whether an auction with this identifier exists and is active.
    pub open spec fn is_active(self, id: u64) -> bool {
        self.has(id) && self.auctions[id].status == AuctionStatus::Active
    }

    /// The identifiers in use are exactly those from 1 up to the counter, and
    /// each record and each bid log is filed under its own identifier.
    pub open spec fn ids_wf(self) -> bool {
        &&& self.next_auction_id >= 1
        &&& forall|id: u64| #[trigger]
            self.auctions.dom().contains(id) <==> 1 <= id < self.next_auction_id
        &&& forall|id: u64| #[trigger]
            self.bids.dom().contains(id) <==> self.auctions.dom().contains(id)
        &&& forall|id: u64| self.auctions.dom().contains(id) ==> (#[trigger] self.auctions[id]).id == id
    }

    /// Every record agrees with its bid log and closes no earlier than it
    /// starts.
    pub open spec fn records_wf(self) -> bool {
        forall|id: u64|
            self.auctions.dom().contains(id) ==> {
                &&& log_matches(#[trigger] self.auctions[id], self.bids[id])
                &&& self.auctions[id].start_time <= self.auctions[id].end_time
            }
    }

    /// The listing of a seller holds exactly the auctions of that seller, in
    /// the order of their creation.
    pub open spec fn listings_wf(self) -> bool {
        &&& forall|seller: Seq<char>, id: u64| #[trigger]
            self.listing(seller).contains(id) <==> (self.has(id) && self.auctions[id].seller@
                == seller)
        &&& forall|seller: Seq<char>, i: int, j: int|
            0 <= i < j < self.listing(seller).len() ==> self.listing(seller)[i] < self.listing(
                seller,
            )[j]
    }

    /// Every event is about an auction that exists.
    pub open spec fn events_wf(self) -> bool {
        forall|i: int| 0 <= i < self.events.len() ==> self.has((#[trigger] self.events[i]).subject())
    }

    /// The invariant of the engine. It holds after bootstrap and is kept by
    /// every operation.
    pub open spec fn wf(self) -> bool {
        &&& self.ids_wf()
        &&& self.records_wf()
        &&& self.listings_wf()
        &&& self.events_wf()
    }

    /// The state after an accepted creation: the counter's identifier is given
    /// to the new auction, which is filed with an empty bid log and appended
    /// to the seller's listing, and the counter moves on by one.
    pub open spec fn after_create(
        self,
        seller: Address,
        nft_contract: Address,
        nft_token_id: u64,
        starting_price: i128,
        min_bid_increment: i128,
        duration_hours: u32,
        asset: String,
        now: u64,
    ) -> Market {
        let id = self.next_auction_id;
        let auction = Auction::opened(
            id,
            seller,
            nft_contract,
            nft_token_id,
            starting_price,
            min_bid_increment,
            duration_hours,
            asset,
            now,
        );
        Market {
            admin: self.admin,
            next_auction_id: (id + 1) as u64,
            auctions: self.auctions.insert(id, auction),
            bids: self.bids.insert(id, Seq::empty()),
            listings: self.listings.insert(seller@, self.listing(seller@).push(id)),
            events: self.events.push(AuctionEvent::creation_of(auction)),
        }
    }

    /// Whether a bid is accepted, and if not, why. The identity check comes
    /// first, then the lookup, then the record's own rules.
    pub open spec fn bid_verdict(self, authorized: bool, id: u64, amount: i128, now: u64) -> Result<
        (),
        AuctionError,
    > {
        if !authorized {
            Err(AuctionError::Unauthorized)
        } else if !self.has(id) {
            Err(AuctionError::NotFound)
        } else {
            self.auctions[id].bid_verdict(amount, now)
        }
    }

    /// The state after an accepted bid: the bidder leads the auction, and the
    /// bid is appended to its log.
    pub open spec fn after_bid(self, bidder: Address, id: u64, amount: i128, now: u64) -> Market {
        let auction = self.auctions[id].with_bid(bidder, amount);
        Market {
            auctions: self.auctions.insert(id, auction),
            bids: self.bids.insert(id, self.bid_log(id).push(Bid { bidder, amount, timestamp: now })),
            events: self.events.push(AuctionEvent::bid_on(auction)),
            ..self
        }
    }

    /// Whether an auction may be ended at `now`, and if not, why.
    pub open spec fn end_verdict(self, id: u64, now: u64) -> Result<(), AuctionError> {
        if !self.has(id) {
            Err(AuctionError::NotFound)
        } else {
            self.auctions[id].end_verdict(now)
        }
    }

    /// The state after an auction was ended.
    pub open spec fn after_end(self, id: u64) -> Market {
        let auction = self.auctions[id].with_status(AuctionStatus::Ended);
        Market {
            auctions: self.auctions.insert(id, auction),
            events: self.events.push(AuctionEvent::end_of(auction)),
            ..self
        }
    }

    /// Whether `seller` may cancel an auction, and if not, why. The identity
    /// check comes first, then the lookup, then the record's own rules, which
    /// go by the bid log.
    pub open spec fn cancel_verdict(self, authorized: bool, seller: Seq<char>, id: u64) -> Result<
        (),
        AuctionError,
    > {
        if !authorized {
            Err(AuctionError::Unauthorized)
        } else if !self.has(id) {
            Err(AuctionError::NotFound)
        } else {
            self.auctions[id].cancel_verdict(seller, self.bid_log(id).len())
        }
    }

    /// The state after an auction was cancelled.
    pub open spec fn after_cancel(self, id: u64) -> Market {
        let auction = self.auctions[id].with_status(AuctionStatus::Cancelled);
        Market {
            auctions: self.auctions.insert(id, auction),
            events: self.events.push(AuctionEvent::cancellation_of(auction)),
            ..self
        }
    }
}

} // verus!
