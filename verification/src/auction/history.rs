//! Histories of calls, and what holds of the engine after any of them.
//!
//! A call that the engine refuses leaves the state as it was, so a history
//! may hold any calls in any order: the state after it is the state after
//! the calls that were accepted.

use vstd::prelude::*;
use crate::address::Address;
use crate::auction::model::Market;
use crate::auction::preservation::{
    lemma_bid_keeps_wf,
    lemma_cancel_keeps_wf,
    lemma_create_keeps_wf,
    lemma_end_keeps_wf,
    lemma_fresh_wf,
};
use crate::auction::record::{closing_time, AuctionStatus};

verus! {

/// One call of a mutating operation, with all that it is given.
pub enum Call {
    Create {
        authorized: bool,
        seller: Address,
        nft_contract: Address,
        nft_token_id: u64,
        starting_price: i128,
        min_bid_increment: i128,
        duration_hours: u32,
        asset: String,
        now: u64,
    },
    PlaceBid { authorized: bool, bidder: Address, auction_id: u64, amount: i128, now: u64 },
    End { auction_id: u64, now: u64 },
    Cancel { authorized: bool, seller: Address, auction_id: u64 },
}

impl Market {
    /// Whether the engine accepts the call in this state. A creation is
    /// accepted when the caller is authorized and the counter and the closing
    /// time stay within the range of their type.
    pub open spec fn accepts(self, call: Call) -> bool {
        match call {
            Call::Create { authorized, duration_hours, now, .. } => {
                &&& authorized
                &&& self.next_auction_id < u64::MAX
                &&& closing_time(now, duration_hours) <= u64::MAX
            },
            Call::PlaceBid { authorized, auction_id, amount, now, .. } => self.bid_verdict(
                authorized,
                auction_id,
                amount,
                now,
            ) is Ok,
            Call::End { auction_id, now } => self.end_verdict(auction_id, now) is Ok,
            Call::Cancel { authorized, seller, auction_id } => self.cancel_verdict(
                authorized,
                seller@,
                auction_id,
            ) is Ok,
        }
    }

    /// The state after one call: the successor state when the call is
    /// accepted, the same state when it is not.
    pub open spec fn step(self, call: Call) -> Market {
        if !self.accepts(call) {
            self
        } else {
            match call {
                Call::Create {
                    seller,
                    nft_contract,
                    nft_token_id,
                    starting_price,
                    min_bid_increment,
                    duration_hours,
                    asset,
                    now,
                    ..
                } => self.after_create(
                    seller,
                    nft_contract,
                    nft_token_id,
                    starting_price,
                    min_bid_increment,
                    duration_hours,
                    asset,
                    now,
                ),
                Call::PlaceBid { bidder, auction_id, amount, now, .. } => self.after_bid(
                    bidder,
                    auction_id,
                    amount,
                    now,
                ),
                Call::End { auction_id, .. } => self.after_end(auction_id),
                Call::Cancel { auction_id, .. } => self.after_cancel(auction_id),
            }
        }
    }

    /// The state after a history of calls, made one after the other.
    pub open spec fn run(self, calls: Seq<Call>) -> Market
        decreases calls.len(),
    {
        if calls.len() == 0 {
            self
        } else {
            self.run(calls.drop_last()).step(calls.last())
        }
    }
}

/// One call, accepted or not, keeps the engine well-formed.
pub proof fn law_step_keeps_wf(m: Market, call: Call)
    requires
        m.wf(),
    ensures
        m.step(call).wf(),
{
    if m.accepts(call) {
        match call {
            Call::Create {
                seller,
                nft_contract,
                nft_token_id,
                starting_price,
                min_bid_increment,
                duration_hours,
                asset,
                now,
                ..
            } => {
                lemma_create_keeps_wf(
                    m,
                    seller,
                    nft_contract,
                    nft_token_id,
                    starting_price,
                    min_bid_increment,
                    duration_hours,
                    asset,
                    now,
                );
            },
            Call::PlaceBid { bidder, auction_id, amount, now, .. } => {
                lemma_bid_keeps_wf(m, bidder, auction_id, amount, now);
            },
            Call::End { auction_id, now } => {
                lemma_end_keeps_wf(m, auction_id, now);
            },
            Call::Cancel { seller, auction_id, .. } => {
                lemma_cancel_keeps_wf(m, seller@, auction_id);
            },
        }
    }
}

/// After any history of calls on a well-formed engine, the engine is
/// well-formed.
pub proof fn law_history_keeps_wf(m: Market, calls: Seq<Call>)
    requires
        m.wf(),
    ensures
        m.run(calls).wf(),
    decreases calls.len(),
{
    if calls.len() > 0 {
        law_history_keeps_wf(m, calls.drop_last());
        law_step_keeps_wf(m.run(calls.drop_last()), calls.last());
    }
}

/// After any history of calls since bootstrap, the engine is well-formed.
pub proof fn law_every_history_is_wf(admin: Address, calls: Seq<Call>)
    ensures
        Market::fresh(admin).run(calls).wf(),
{
    lemma_fresh_wf(admin);
    law_history_keeps_wf(Market::fresh(admin), calls);
}

/// No call removes an auction or gives its identifier to another record, and
/// the counter never goes back.
pub proof fn law_auctions_persist(m: Market, call: Call, id: u64)
    requires
        m.wf(),
        m.has(id),
    ensures
        m.step(call).has(id),
        m.step(call).auctions[id].id == id,
        m.step(call).next_auction_id >= m.next_auction_id,
{
}

/// What is fixed at creation stays fixed: no call changes the seller, the
/// asset reference, the minimum increment, the times or the currency tag of
/// an auction.
pub proof fn law_terms_are_immutable(m: Market, call: Call, id: u64)
    requires
        m.wf(),
        m.has(id),
    ensures
        m.step(call).auctions[id].seller == m.auctions[id].seller,
        m.step(call).auctions[id].nft_contract == m.auctions[id].nft_contract,
        m.step(call).auctions[id].nft_token_id == m.auctions[id].nft_token_id,
        m.step(call).auctions[id].min_bid_increment == m.auctions[id].min_bid_increment,
        m.step(call).auctions[id].start_time == m.auctions[id].start_time,
        m.step(call).auctions[id].end_time == m.auctions[id].end_time,
        m.step(call).auctions[id].asset == m.auctions[id].asset,
{
}

/// The status of an auction changes only from `Active`, and only to `Ended`
/// or `Cancelled`.
pub proof fn law_status_moves_forward(m: Market, call: Call, id: u64)
    requires
        m.wf(),
        m.has(id),
        m.step(call).auctions[id].status != m.auctions[id].status,
    ensures
        m.auctions[id].status == AuctionStatus::Active,
        m.step(call).auctions[id].status != AuctionStatus::Active,
{
}

/// An auction that has ended or was cancelled is never changed again, and
/// neither is its bid log.
pub proof fn law_closed_auction_is_frozen(m: Market, call: Call, id: u64)
    requires
        m.wf(),
        m.has(id),
        m.auctions[id].status != AuctionStatus::Active,
    ensures
        m.step(call).auctions[id] == m.auctions[id],
        m.step(call).bid_log(id) == m.bid_log(id),
{
}

/// The leading bid of an auction never falls.
pub proof fn law_leading_bid_never_falls(m: Market, call: Call, id: u64)
    requires
        m.wf(),
        m.has(id),
    ensures
        m.step(call).auctions[id].highest_bid >= m.auctions[id].highest_bid,
{
}

/// The bid log only grows: after any call, the log as it was is a prefix of
/// the log as it is.
pub proof fn law_bid_log_is_append_only(m: Market, call: Call, id: u64)
    requires
        m.wf(),
        m.has(id),
    ensures
        m.bid_log(id).is_prefix_of(m.step(call).bid_log(id)),
{
}

/// The listing of a seller only grows: after any call, the listing as it was
/// is a prefix of the listing as it is.
pub proof fn law_listing_is_append_only(m: Market, call: Call, seller: Seq<char>)
    requires
        m.wf(),
    ensures
        m.listing(seller).is_prefix_of(m.step(call).listing(seller)),
{
}

/// Every accepted call gives out exactly one event, and a refused call gives
/// out none.
pub proof fn law_one_event_per_commit(m: Market, call: Call)
    ensures
        m.accepts(call) ==> m.step(call).events.len() == m.events.len() + 1,
        !m.accepts(call) ==> m.step(call) == m,
        m.events.is_prefix_of(m.step(call).events),
{
}

} // verus!
