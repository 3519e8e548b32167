//! The auction record, the bids placed on it, and the rules of its lifecycle.
//!
//! An auction is created `Active` and leaves that state at most once, either
//! to `Ended` or to `Cancelled`. While it is active and its time window is
//! open it admits bids, each of which must exceed the leading bid by at least
//! the minimum increment.

use vstd::prelude::*;
use crate::address::Address;
use crate::auction::error::AuctionError;

verus! {

/// The number of seconds in one hour of auction time.
pub const SECONDS_PER_HOUR: u64 = 3600;

/// Where an auction stands in its lifecycle.
#[derive(Clone, Copy, Debug, PartialEq, Eq, Structural)]
pub enum AuctionStatus {
    Active,
    Ended,
    Cancelled,
}

/// One admitted bid, as it is kept in the bid log of an auction.
#[derive(Debug, PartialEq, Eq)]
pub struct Bid {
    pub bidder: Address,
    pub amount: i128,
    pub timestamp: u64,
}

impl Clone for Bid {
    fn clone(&self) -> (copy: Self)
        ensures
            copy == *self,
    {
        Bid { bidder: self.bidder.clone(), amount: self.amount, timestamp: self.timestamp }
    }
}

/// The authoritative state of one auction.
///
/// `highest_bidder` starts out as the seller, which stands for "no bid yet";
/// `highest_bid` starts out as the starting price.
#[derive(Debug, PartialEq, Eq)]
pub struct Auction {
    pub id: u64,
    pub nft_contract: Address,
    pub nft_token_id: u64,
    pub seller: Address,
    pub highest_bidder: Address,
    pub highest_bid: i128,
    pub min_bid_increment: i128,
    pub start_time: u64,
    pub end_time: u64,
    pub asset: String,
    pub status: AuctionStatus,
}

impl Clone for Auction {
    fn clone(&self) -> (copy: Self)
        ensures
            copy == *self,
    {
        Auction {
            id: self.id,
            nft_contract: self.nft_contract.clone(),
            nft_token_id: self.nft_token_id,
            seller: self.seller.clone(),
            highest_bidder: self.highest_bidder.clone(),
            highest_bid: self.highest_bid,
            min_bid_increment: self.min_bid_increment,
            start_time: self.start_time,
            end_time: self.end_time,
            asset: self.asset.clone(),
            status: self.status,
        }
    }
}

/// The instant at which an auction that starts at `start` and runs for
/// `duration_hours` closes.
pub open spec fn closing_time(start: u64, duration_hours: u32) -> int {
    start + duration_hours * 3600
}

impl Auction {
    /// The record of an auction at the moment of its creation.
    pub open spec fn opened(
        id: u64,
        seller: Address,
        nft_contract: Address,
        nft_token_id: u64,
        starting_price: i128,
        min_bid_increment: i128,
        duration_hours: u32,
        asset: String,
        now: u64,
    ) -> Auction {
        Auction {
            id,
            nft_contract,
            nft_token_id,
            seller,
            highest_bidder: seller,
            highest_bid: starting_price,
            min_bid_increment,
            start_time: now,
            end_time: closing_time(now, duration_hours) as u64,
            asset,
            status: AuctionStatus::Active,
        }
    }

    /// Whether a bid of `amount` made at `now` is admitted, and if not, why.
    /// The checks are made in this order: state, time, amount, increment.
    pub open spec fn bid_verdict(self, amount: i128, now: u64) -> Result<(), AuctionError> {
        if self.status != AuctionStatus::Active {
            Err(AuctionError::InvalidState)
        } else if now >= self.end_time {
            Err(AuctionError::Expired)
        } else if amount <= self.highest_bid {
            Err(AuctionError::BidTooLow)
        } else if amount < self.highest_bid + self.min_bid_increment {
            Err(AuctionError::BidBelowIncrement)
        } else {
            Ok(())
        }
    }

    /// The record after `bidder` has taken the lead with `amount`.
    pub open spec fn with_bid(self, bidder: Address, amount: i128) -> Auction {
        Auction { highest_bidder: bidder, highest_bid: amount, ..self }
    }

    /// Whether the auction may be ended at `now`, and if not, why.
    pub open spec fn end_verdict(self, now: u64) -> Result<(), AuctionError> {
        if self.status != AuctionStatus::Active {
            Err(AuctionError::InvalidState)
        } else if now < self.end_time {
            Err(AuctionError::StillActive)
        } else {
            Ok(())
        }
    }

    /// Whether `seller` may cancel the auction when its bid log holds
    /// `bid_count` entries, and if not, why. The checks are made in this
    /// order: seller, state, bids.
    pub open spec fn cancel_verdict(self, seller: Seq<char>, bid_count: nat) -> Result<
        (),
        AuctionError,
    > {
        if self.seller@ != seller {
            Err(AuctionError::NotSeller)
        } else if self.status != AuctionStatus::Active {
            Err(AuctionError::InvalidState)
        } else if bid_count > 0 {
            Err(AuctionError::HasBids)
        } else {
            Ok(())
        }
    }

    /// The record with its status replaced.
    pub open spec fn with_status(self, status: AuctionStatus) -> Auction {
        Auction { status, ..self }
    }

    /// Whether an auction that starts at `now` and runs for `duration_hours`
    /// closes at an instant that the ledger's clock can show.
    pub fn closes_in_range(now: u64, duration_hours: u32) -> (fits: bool)
        ensures
            fits == (closing_time(now, duration_hours) <= u64::MAX),
    {
        let span: u64 = (duration_hours as u64) * SECONDS_PER_HOUR;
        span <= u64::MAX - now
    }

    /// Creates the record of a new auction that starts at `now`. The closing
    /// time must be one that the ledger's clock can show.
    pub fn open(
        id: u64,
        seller: Address,
        nft_contract: Address,
        nft_token_id: u64,
        starting_price: i128,
        min_bid_increment: i128,
        duration_hours: u32,
        asset: String,
        now: u64,
    ) -> (auction: Auction)
        requires
            closing_time(now, duration_hours) <= u64::MAX,
        ensures
            auction == Auction::opened(
                id,
                seller,
                nft_contract,
                nft_token_id,
                starting_price,
                min_bid_increment,
                duration_hours,
                asset,
                now,
            ),
    {
        let span: u64 = (duration_hours as u64) * SECONDS_PER_HOUR;
        let highest_bidder = seller.clone();
        Auction {
            id,
            nft_contract,
            nft_token_id,
            seller,
            highest_bidder,
            highest_bid: starting_price,
            min_bid_increment,
            start_time: now,
            end_time: now + span,
            asset,
            status: AuctionStatus::Active,
        }
    }

    /// Whether the auction is still in its `Active` state.
    pub fn is_active(&self) -> (active: bool)
        ensures
            active == (self.status == AuctionStatus::Active),
    {
        self.status == AuctionStatus::Active
    }

    /// Decides on a bid without changing the record.
    pub fn check_bid(&self, amount: i128, now: u64) -> (verdict: Result<(), AuctionError>)
        ensures
            verdict == self.bid_verdict(amount, now),
    {
        if self.status != AuctionStatus::Active {
            return Err(AuctionError::InvalidState);
        }
        if now >= self.end_time {
            return Err(AuctionError::Expired);
        }
        if amount <= self.highest_bid {
            return Err(AuctionError::BidTooLow);
        }
        match self.highest_bid.checked_add(self.min_bid_increment) {
            Some(min_required) => {
                if amount < min_required {
                    return Err(AuctionError::BidBelowIncrement);
                }
            },
            None => {
                // The sum lies outside the range of amounts: above it when the
                // increment is positive, where no amount reaches it, and below
                // it otherwise, where every amount does.
                if self.min_bid_increment > 0 {
                    return Err(AuctionError::BidBelowIncrement);
                }
            },
        }
        Ok(())
    }

    /// Places a bid. When the bid is admitted the bidder takes the lead and
    /// the entry for the bid log is returned; otherwise the record is left as
    /// it was.
    pub fn bid(&mut self, bidder: Address, amount: i128, now: u64) -> (outcome: Result<
        Bid,
        AuctionError,
    >)
        ensures
            match outcome {
                Ok(entry) => {
                    &&& old(self).bid_verdict(amount, now) is Ok
                    &&& *final(self) == old(self).with_bid(bidder, amount)
                    &&& entry == (Bid { bidder, amount, timestamp: now })
                },
                Err(reason) => {
                    &&& old(self).bid_verdict(amount, now) == Err::<(), AuctionError>(reason)
                    &&& *final(self) == *old(self)
                },
            },
    {
        match self.check_bid(amount, now) {
            Err(reason) => Err(reason),
            Ok(()) => {
                let entry = Bid { bidder: bidder.clone(), amount, timestamp: now };
                self.highest_bidder = bidder;
                self.highest_bid = amount;
                Ok(entry)
            },
        }
    }

    /// Ends the auction once its time window has elapsed. The leading bidder
    /// and bid at this moment are the outcome of the auction.
    pub fn end(&mut self, now: u64) -> (outcome: Result<(), AuctionError>)
        ensures
            outcome == old(self).end_verdict(now),
            outcome is Ok ==> *final(self) == old(self).with_status(AuctionStatus::Ended),
            outcome is Err ==> *final(self) == *old(self),
    {
        if self.status != AuctionStatus::Active {
            return Err(AuctionError::InvalidState);
        }
        if now < self.end_time {
            return Err(AuctionError::StillActive);
        }
        self.status = AuctionStatus::Ended;
        Ok(())
    }

    /// Cancels the auction on behalf of `seller`; `bid_count` is the number of
    /// entries in the auction's bid log.
    pub fn cancel(&mut self, seller: &Address, bid_count: usize) -> (outcome: Result<
        (),
        AuctionError,
    >)
        ensures
            outcome == old(self).cancel_verdict(seller@, bid_count as nat),
            outcome is Ok ==> *final(self) == old(self).with_status(AuctionStatus::Cancelled),
            outcome is Err ==> *final(self) == *old(self),
    {
        if !self.seller.same_as(seller) {
            return Err(AuctionError::NotSeller);
        }
        if self.status != AuctionStatus::Active {
            return Err(AuctionError::InvalidState);
        }
        if bid_count > 0 {
            return Err(AuctionError::HasBids);
        }
        self.status = AuctionStatus::Cancelled;
        Ok(())
    }
}

} // verus!
