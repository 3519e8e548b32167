//! The auction engine over state held in memory.
//!
//! `StellarAuction` keeps the records in the order of their identifiers, each
//! with its bid log, and keeps an index of the auctions of each seller. Its
//! view is the `Market` of the model, and each operation is specified by the
//! verdict and the successor state that the model gives for it.

use vstd::prelude::*;
use crate::address::Address;
use crate::auction::error::AuctionError;
use crate::auction::event::AuctionEvent;
use crate::auction::model::Market;
use crate::auction::preservation::{
    lemma_bid_keeps_wf,
    lemma_cancel_keeps_wf,
    lemma_create_keeps_wf,
    lemma_end_keeps_wf,
    lemma_fresh_wf,
};
use crate::auction::record::{closing_time, Auction, Bid};
use crate::index::AddressIndex;

verus! {

/// One auction with its bid log.
struct Entry {
    auction: Auction,
    bids: Vec<Bid>,
}

/// The auction engine and all that it keeps between calls.
pub struct StellarAuction {
    admin: Address,
    next_auction_id: u64,
    entries: Vec<Entry>,
    sellers: AddressIndex,
    events: Vec<AuctionEvent>,
}

/// The records of the entries, each under its identifier.
spec fn auctions_of(entries: Seq<Entry>) -> Map<u64, Auction> {
    Map::new(|id: u64| 1 <= id <= entries.len(), |id: u64| entries[id - 1].auction)
}

/// The bid logs of the entries, each under the identifier of its auction.
spec fn bids_of(entries: Seq<Entry>) -> Map<u64, Seq<Bid>> {
    Map::new(|id: u64| 1 <= id <= entries.len(), |id: u64| entries[id - 1].bids@)
}

/// Appending an entry files its record and its bid log under the next
/// identifier.
proof fn lemma_entry_appended(entries: Seq<Entry>, entry: Entry)
    requires
        entries.len() < u64::MAX,
    ensures
        auctions_of(entries.push(entry)) == auctions_of(entries).insert(
            (entries.len() + 1) as u64,
            entry.auction,
        ),
        bids_of(entries.push(entry)) == bids_of(entries).insert(
            (entries.len() + 1) as u64,
            entry.bids@,
        ),
{
    let longer = entries.push(entry);
    let id = (entries.len() + 1) as u64;
    assert(auctions_of(longer) =~= auctions_of(entries).insert(id, entry.auction));
    assert(bids_of(longer) =~= bids_of(entries).insert(id, entry.bids@));
}

/// Replacing one entry replaces what is filed under its identifier and
/// nothing else.
proof fn lemma_entry_replaced(entries: Seq<Entry>, changed: Seq<Entry>, i: int)
    requires
        0 <= i < entries.len(),
        entries.len() <= u64::MAX,
        changed.len() == entries.len(),
        forall|j: int| 0 <= j < entries.len() && j != i ==> changed[j] == entries[j],
    ensures
        auctions_of(changed) == auctions_of(entries).insert((i + 1) as u64, changed[i].auction),
        bids_of(changed) == bids_of(entries).insert((i + 1) as u64, changed[i].bids@),
{
    let id = (i + 1) as u64;
    assert(auctions_of(changed) =~= auctions_of(entries).insert(id, changed[i].auction));
    assert(bids_of(changed) =~= bids_of(entries).insert(id, changed[i].bids@));
}

impl View for StellarAuction {
    type V = Market;

    closed spec fn view(&self) -> Market {
        Market {
            admin: self.admin,
            next_auction_id: self.next_auction_id,
            auctions: auctions_of(self.entries@),
            bids: bids_of(self.entries@),
            listings: self.sellers@,
            events: self.events@,
        }
    }
}

impl StellarAuction {
    /// What the representation needs beyond the invariant of the model: the
    /// counter runs one ahead of the number of records, and the index of the
    /// sellers is sound.
    pub closed spec fn repr_ok(&self) -> bool {
        &&& self.entries@.len() + 1 == self.next_auction_id
        &&& self.sellers.wf()
    }

    /// The invariant of the engine: the state is a well-formed market, and
    /// the representation is sound.
    pub open spec fn wf(&self) -> bool {
        &&& self.repr_ok()
        &&& self@.wf()
    }

    /// Bootstraps the engine: names the administrator and sets the counter
    /// to 1.
    pub fn initialize(admin: Address) -> (engine: StellarAuction)
        ensures
            engine.wf(),
            engine@ == Market::fresh(admin),
    {
        let engine = StellarAuction {
            admin,
            next_auction_id: 1,
            entries: Vec::new(),
            sellers: AddressIndex::new(),
            events: Vec::new(),
        };
        proof {
            lemma_fresh_wf(admin);
            assert(engine@.auctions =~= Map::<u64, Auction>::empty());
            assert(engine@.bids =~= Map::<u64, Seq<Bid>>::empty());
            assert(engine@ =~= Market::fresh(admin));
        }
        engine
    }

    /// The administrator named at bootstrap.
    pub fn admin(&self) -> (admin: &Address)
        ensures
            *admin == self@.admin,
    {
        &self.admin
    }

    /// The identifier that the next auction will get.
    pub fn next_auction_id(&self) -> (id: u64)
        ensures
            id == self@.next_auction_id,
    {
        self.next_auction_id
    }

    /// Every event given out so far, oldest first.
    pub fn events(&self) -> (events: &Vec<AuctionEvent>)
        ensures
            events@ == self@.events,
    {
        &self.events
    }

    /// The position of the record with this identifier, if there is one.
    fn position(&self, auction_id: u64) -> (found: Option<usize>)
        requires
            self.wf(),
        ensures
            match found {
                Some(i) => self@.has(auction_id) && i == auction_id - 1 && i < self.entries@.len(),
                None => !self@.has(auction_id),
            },
    {
        let count: usize = self.entries.len();
        if auction_id >= 1 && auction_id - 1 < count as u64 {
            Some((auction_id - 1) as usize)
        } else {
            None
        }
    }

    /// The record of an auction.
    pub fn get_auction(&self, auction_id: u64) -> (outcome: Result<Auction, AuctionError>)
        requires
            self.wf(),
        ensures
            match outcome {
                Ok(auction) => self@.has(auction_id) && auction == self@.auctions[auction_id],
                Err(reason) => !self@.has(auction_id) && reason == AuctionError::NotFound,
            },
    {
        match self.position(auction_id) {
            Some(i) => Ok(self.entries[i].auction.clone()),
            None => Err(AuctionError::NotFound),
        }
    }

    /// The bid log of an auction, oldest bid first; empty when the identifier
    /// names no auction.
    pub fn get_auction_bids(&self, auction_id: u64) -> (bids: Vec<Bid>)
        requires
            self.wf(),
        ensures
            bids@ == self@.bid_log(auction_id),
    {
        let mut bids: Vec<Bid> = Vec::new();
        match self.position(auction_id) {
            Some(i) => {
                let log = &self.entries[i].bids;
                let mut k: usize = 0;
                while k < log.len()
                    invariant
                        k <= log@.len(),
                        bids@ == log@.take(k as int),
                    decreases log@.len() - k,
                {
                    bids.push(log[k].clone());
                    assert(log@.take(k + 1) == log@.take(k as int).push(log@[k as int]));
                    k = k + 1;
                }
                assert(log@.take(log@.len() as int) == log@);
            },
            None => {},
        }
        bids
    }

    /// Creates an auction on behalf of `seller` and returns its identifier.
    ///
    /// `authorized` says whether the caller may act for `seller`, and `now`
    /// is the ledger time. The auction starts at `now`, runs for
    /// `duration_hours`, and opens at `starting_price` with the seller as its
    /// nominal leader. Neither the price nor the duration is held to a range.
    pub fn create_auction(
        &mut self,
        authorized: bool,
        seller: Address,
        nft_contract: Address,
        nft_token_id: u64,
        starting_price: i128,
        min_bid_increment: i128,
        duration_hours: u32,
        asset: String,
        now: u64,
    ) -> (outcome: Result<u64, AuctionError>)
        requires
            old(self).wf(),
            old(self)@.next_auction_id < u64::MAX,
            closing_time(now, duration_hours) <= u64::MAX,
        ensures
            final(self).wf(),
            match outcome {
                Ok(id) => {
                    &&& authorized
                    &&& id == old(self)@.next_auction_id
                    &&& final(self)@ == old(self)@.after_create(
                        seller,
                        nft_contract,
                        nft_token_id,
                        starting_price,
                        min_bid_increment,
                        duration_hours,
                        asset,
                        now,
                    )
                },
                Err(reason) => {
                    &&& !authorized
                    &&& reason == AuctionError::Unauthorized
                    &&& final(self)@ == old(self)@
                },
            },
    {
        if !authorized {
            return Err(AuctionError::Unauthorized);
        }
        let id: u64 = self.next_auction_id;
        let auction = Auction::open(
            id,
            seller,
            nft_contract,
            nft_token_id,
            starting_price,
            min_bid_increment,
            duration_hours,
            asset,
            now,
        );
        let ghost before = *self;
        let ghost target = before@.after_create(
            seller,
            nft_contract,
            nft_token_id,
            starting_price,
            min_bid_increment,
            duration_hours,
            asset,
            now,
        );
        self.sellers.append(&auction.seller, id);
        self.events.push(AuctionEvent::created(&auction));
        let entry = Entry { auction, bids: Vec::new() };
        proof {
            lemma_entry_appended(before.entries@, entry);
        }
        self.entries.push(entry);
        self.next_auction_id = id + 1;
        proof {
            assert(self@.listings == target.listings);
            assert(self@ =~= target);
            lemma_create_keeps_wf(
                before@,
                seller,
                nft_contract,
                nft_token_id,
                starting_price,
                min_bid_increment,
                duration_hours,
                asset,
                now,
            );
        }
        Ok(id)
    }

    /// Places a bid of `bid_amount` on behalf of `bidder`.
    ///
    /// `authorized` says whether the caller may act for `bidder`, and `now`
    /// is the ledger time. An accepted bid makes the bidder the leader of
    /// the auction and is appended to its bid log.
    pub fn place_bid(
        &mut self,
        authorized: bool,
        bidder: Address,
        auction_id: u64,
        bid_amount: i128,
        now: u64,
    ) -> (outcome: Result<(), AuctionError>)
        requires
            old(self).wf(),
        ensures
            final(self).wf(),
            outcome == old(self)@.bid_verdict(authorized, auction_id, bid_amount, now),
            outcome is Ok ==> final(self)@ == old(self)@.after_bid(
                bidder,
                auction_id,
                bid_amount,
                now,
            ),
            outcome is Err ==> final(self)@ == old(self)@,
    {
        if !authorized {
            return Err(AuctionError::Unauthorized);
        }
        let i: usize = match self.position(auction_id) {
            Some(i) => i,
            None => {
                return Err(AuctionError::NotFound);
            },
        };
        let ghost before = *self;
        let admitted = self.entries[i].auction.bid(bidder, bid_amount, now);
        match admitted {
            Err(reason) => {
                proof {
                    lemma_entry_replaced(before.entries@, self.entries@, i as int);
                    assert(self@.auctions =~= before@.auctions);
                    assert(self@.bids =~= before@.bids);
                    assert(self@ =~= before@);
                }
                Err(reason)
            },
            Ok(entry) => {
                self.entries[i].bids.push(entry);
                self.events.push(AuctionEvent::bid_placed(&self.entries[i].auction));
                proof {
                    lemma_entry_replaced(before.entries@, self.entries@, i as int);
                    let target = before@.after_bid(bidder, auction_id, bid_amount, now);
                    assert(self@.auctions =~= target.auctions);
                    assert(self@.bids =~= target.bids);
                    assert(self@ =~= target);
                    lemma_bid_keeps_wf(before@, bidder, auction_id, bid_amount, now);
                }
                Ok(())
            },
        }
    }

    /// Ends an auction whose time window has elapsed. Anyone may call this.
    /// The leader and the leading bid at this moment are the outcome of the
    /// auction.
    pub fn end_auction(&mut self, auction_id: u64, now: u64) -> (outcome: Result<
        (),
        AuctionError,
    >)
        requires
            old(self).wf(),
        ensures
            final(self).wf(),
            outcome == old(self)@.end_verdict(auction_id, now),
            outcome is Ok ==> final(self)@ == old(self)@.after_end(auction_id),
            outcome is Err ==> final(self)@ == old(self)@,
    {
        let i: usize = match self.position(auction_id) {
            Some(i) => i,
            None => {
                return Err(AuctionError::NotFound);
            },
        };
        let ghost before = *self;
        let outcome = self.entries[i].auction.end(now);
        proof {
            lemma_entry_replaced(before.entries@, self.entries@, i as int);
        }
        match outcome {
            Err(reason) => {
                proof {
                    assert(self@.auctions =~= before@.auctions);
                    assert(self@.bids =~= before@.bids);
                    assert(self@ =~= before@);
                }
                Err(reason)
            },
            Ok(()) => {
                self.events.push(AuctionEvent::ended(&self.entries[i].auction));
                proof {
                    let target = before@.after_end(auction_id);
                    assert(self@.auctions =~= target.auctions);
                    assert(self@.bids =~= target.bids);
                    assert(self@ =~= target);
                    lemma_end_keeps_wf(before@, auction_id, now);
                }
                Ok(())
            },
        }
    }

    /// Cancels an auction on behalf of `seller`, which is possible only
    /// while its bid log is empty.
    ///
    /// `authorized` says whether the caller may act for `seller`.
    pub fn cancel_auction(&mut self, authorized: bool, seller: Address, auction_id: u64) -> (outcome:
        Result<(), AuctionError>)
        requires
            old(self).wf(),
        ensures
            final(self).wf(),
            outcome == old(self)@.cancel_verdict(authorized, seller@, auction_id),
            outcome is Ok ==> final(self)@ == old(self)@.after_cancel(auction_id),
            outcome is Err ==> final(self)@ == old(self)@,
    {
        if !authorized {
            return Err(AuctionError::Unauthorized);
        }
        let i: usize = match self.position(auction_id) {
            Some(i) => i,
            None => {
                return Err(AuctionError::NotFound);
            },
        };
        let ghost before = *self;
        let bid_count: usize = self.entries[i].bids.len();
        let outcome = self.entries[i].auction.cancel(&seller, bid_count);
        proof {
            lemma_entry_replaced(before.entries@, self.entries@, i as int);
        }
        match outcome {
            Err(reason) => {
                proof {
                    assert(self@.auctions =~= before@.auctions);
                    assert(self@.bids =~= before@.bids);
                    assert(self@ =~= before@);
                }
                Err(reason)
            },
            Ok(()) => {
                self.events.push(AuctionEvent::cancelled(&self.entries[i].auction));
                proof {
                    let target = before@.after_cancel(auction_id);
                    assert(self@.auctions =~= target.auctions);
                    assert(self@.bids =~= target.bids);
                    assert(self@ =~= target);
                    lemma_cancel_keeps_wf(before@, seller@, auction_id);
                }
                Ok(())
            },
        }
    }

    /// The auctions that `seller` has created, oldest first. The listing is
    /// historical: an auction stays in it after it has ended or was cancelled.
    pub fn get_seller_auctions(&self, seller: Address) -> (ids: Vec<u64>)
        requires
            self.wf(),
        ensures
            ids@ == self@.listing(seller@),
    {
        self.sellers.ids_of(&seller)
    }

    /// The identifiers of the auctions that are active, in increasing order.
    /// Every record is looked at, so the cost grows with the number of
    /// auctions ever created.
    pub fn get_active_auctions(&self) -> (ids: Vec<u64>)
        requires
            self.wf(),
        ensures
            forall|id: u64| ids@.contains(id) <==> self@.is_active(id),
            forall|i: int, j: int| 0 <= i < j < ids@.len() ==> ids@[i] < ids@[j],
    {
        let mut ids: Vec<u64> = Vec::new();
        let mut k: usize = 0;
        while k < self.entries.len()
            invariant
                self.wf(),
                k <= self.entries@.len(),
                forall|id: u64| ids@.contains(id) <==> (self@.is_active(id) && id <= k),
                forall|i: int, j: int| 0 <= i < j < ids@.len() ==> ids@[i] < ids@[j],
            decreases self.entries@.len() - k,
        {
            let id: u64 = self.entries[k].auction.id;
            let ghost earlier = ids@;
            proof {
                assert(self@.has((k + 1) as u64));
                assert(self@.auctions[(k + 1) as u64].id == k + 1);
                assert(id == k + 1);
            }
            if self.entries[k].auction.is_active() {
                ids.push(id);
                proof {
                    broadcast use vstd::seq_lib::lemma_seq_contains_after_push;

                    assert forall|i: int, j: int| 0 <= i < j < ids@.len() implies ids@[i]
                        < ids@[j] by {
                        assert(earlier.contains(earlier[i]));
                        if j < earlier.len() {
                            assert(earlier[i] < earlier[j]);
                        }
                    }
                }
            }
            k = k + 1;
        }
        ids
    }
}

} // verus!
