//! The invariant of the engine holds after bootstrap and is kept by every
//! accepted operation.

use vstd::prelude::*;
use crate::address::Address;
use crate::auction::model::{log_matches, raise_at, Market};
use crate::auction::record::{closing_time, AuctionStatus, Bid};

verus! {

/// A freshly bootstrapped engine is well-formed.
pub proof fn lemma_fresh_wf(admin: Address)
    ensures
        Market::fresh(admin).wf(),
{
    let m = Market::fresh(admin);
    assert forall|seller: Seq<char>, id: u64| #[trigger]
        m.listing(seller).contains(id) <==> (m.has(id) && m.auctions[id].seller@ == seller) by {
        assert(m.listing(seller) =~= Seq::<u64>::empty());
    }
}

/// Creating an auction keeps the engine well-formed, as long as the counter
/// and the closing time stay within the range of their type.
pub proof fn lemma_create_keeps_wf(
    m: Market,
    seller: Address,
    nft_contract: Address,
    nft_token_id: u64,
    starting_price: i128,
    min_bid_increment: i128,
    duration_hours: u32,
    asset: String,
    now: u64,
)
    requires
        m.wf(),
        m.next_auction_id < u64::MAX,
        closing_time(now, duration_hours) <= u64::MAX,
    ensures
        m.after_create(
            seller,
            nft_contract,
            nft_token_id,
            starting_price,
            min_bid_increment,
            duration_hours,
            asset,
            now,
        ).wf(),
{
    broadcast use vstd::seq_lib::lemma_seq_contains_after_push;

    let id = m.next_auction_id;
    let next = m.after_create(
        seller,
        nft_contract,
        nft_token_id,
        starting_price,
        min_bid_increment,
        duration_hours,
        asset,
        now,
    );
    assert(!m.has(id));
    assert(next.ids_wf());
    assert(next.records_wf()) by {
        assert forall|other: u64| next.auctions.dom().contains(other) implies {
            &&& log_matches(#[trigger] next.auctions[other], next.bids[other])
            &&& next.auctions[other].start_time <= next.auctions[other].end_time
        } by {
            if other != id {
                assert(log_matches(m.auctions[other], m.bids[other]));
            }
        }
    }
    assert(next.listings_wf()) by {
        assert forall|who: Seq<char>, other: u64| #[trigger]
            next.listing(who).contains(other) <==> (next.has(other) && next.auctions[other].seller@
                == who) by {
            if who == seller@ {
                assert(next.listing(who) == m.listing(who).push(id));
                assert(m.listing(who).contains(other) <==> (m.has(other)
                    && m.auctions[other].seller@ == who));
            } else {
                assert(next.listing(who) == m.listing(who));
                assert(m.listing(who).contains(other) <==> (m.has(other)
                    && m.auctions[other].seller@ == who));
            }
        }
        assert forall|who: Seq<char>, i: int, j: int|
            0 <= i < j < next.listing(who).len() implies next.listing(who)[i] < next.listing(
            who,
        )[j] by {
            if who == seller@ {
                let old_list = m.listing(who);
                assert(next.listing(who) == old_list.push(id));
                assert(old_list.contains(old_list[i]));
                assert(m.has(old_list[i]));
                if j < old_list.len() {
                    assert(old_list[i] < old_list[j]);
                }
            } else {
                assert(next.listing(who) == m.listing(who));
            }
        }
    }
    assert(next.events_wf()) by {
        assert forall|i: int| 0 <= i < next.events.len() implies next.has(
            (#[trigger] next.events[i]).subject(),
        ) by {
            if i < m.events.len() {
                assert(m.has(m.events[i].subject()));
            }
        }
    }
}

/// An accepted bid keeps the engine well-formed.
pub proof fn lemma_bid_keeps_wf(m: Market, bidder: Address, id: u64, amount: i128, now: u64)
    requires
        m.wf(),
        m.bid_verdict(true, id, amount, now) is Ok,
    ensures
        m.after_bid(bidder, id, amount, now).wf(),
{
    let next = m.after_bid(bidder, id, amount, now);
    let before = m.auctions[id];
    let log = m.bids[id];
    let longer = next.bids[id];
    assert(m.bids.dom().contains(id));
    assert(log_matches(before, log));
    assert(next.ids_wf());
    assert(next.records_wf()) by {
        assert forall|other: u64| next.auctions.dom().contains(other) implies {
            &&& log_matches(#[trigger] next.auctions[other], next.bids[other])
            &&& next.auctions[other].start_time <= next.auctions[other].end_time
        } by {
            if other != id {
                assert(log_matches(m.auctions[other], m.bids[other]));
            } else {
                assert(longer == log.push(Bid { bidder, amount, timestamp: now }));
                assert forall|i: int, j: int| 0 <= i < j < longer.len() implies longer[i].amount
                    < longer[j].amount by {
                    if j < log.len() {
                        assert(log[i].amount < log[j].amount);
                    } else if i < log.len() - 1 {
                        assert(log[i].amount < log[log.len() - 1].amount);
                    }
                }
                assert forall|i: int| 0 < i < longer.len() implies #[trigger] raise_at(longer, i)
                    >= before.min_bid_increment by {
                    if i < log.len() {
                        assert(raise_at(log, i) >= before.min_bid_increment);
                    }
                }
                assert forall|i: int| 0 <= i < longer.len() implies (#[trigger] longer[i]).timestamp
                    < before.end_time by {
                    if i < log.len() {
                        assert(log[i].timestamp < before.end_time);
                    }
                }
            }
        }
    }
    assert(next.listings_wf()) by {
        assert forall|who: Seq<char>, other: u64| #[trigger]
            next.listing(who).contains(other) <==> (next.has(other) && next.auctions[other].seller@
                == who) by {
            assert(next.listing(who) == m.listing(who));
            assert(m.listing(who).contains(other) <==> (m.has(other)
                && m.auctions[other].seller@ == who));
        }
        assert forall|who: Seq<char>, i: int, j: int|
            0 <= i < j < next.listing(who).len() implies next.listing(who)[i] < next.listing(
            who,
        )[j] by {
            assert(next.listing(who) == m.listing(who));
        }
    }
    assert(next.events_wf()) by {
        assert forall|i: int| 0 <= i < next.events.len() implies next.has(
            (#[trigger] next.events[i]).subject(),
        ) by {
            if i < m.events.len() {
                assert(m.has(m.events[i].subject()));
            }
        }
    }
}

/// Replacing the status of an existing auction keeps the engine well-formed,
/// provided that an auction is cancelled only while its bid log is empty.
proof fn lemma_status_keeps_wf(m: Market, next: Market, id: u64, status: AuctionStatus)
    requires
        m.wf(),
        m.has(id),
        status == AuctionStatus::Cancelled ==> m.bid_log(id).len() == 0,
        next.next_auction_id == m.next_auction_id,
        next.auctions == m.auctions.insert(id, m.auctions[id].with_status(status)),
        next.bids == m.bids,
        next.listings == m.listings,
        next.events.len() == m.events.len() + 1,
        forall|i: int| 0 <= i < m.events.len() ==> next.events[i] == m.events[i],
        next.events.last().subject() == id,
    ensures
        next.wf(),
{
    assert(m.bids.dom().contains(id));
    assert(log_matches(m.auctions[id], m.bids[id]));
    assert(next.ids_wf());
    assert(next.records_wf()) by {
        assert forall|other: u64| next.auctions.dom().contains(other) implies {
            &&& log_matches(#[trigger] next.auctions[other], next.bids[other])
            &&& next.auctions[other].start_time <= next.auctions[other].end_time
        } by {
            assert(log_matches(m.auctions[other], m.bids[other]));
        }
    }
    assert(next.listings_wf()) by {
        assert forall|who: Seq<char>, other: u64| #[trigger]
            next.listing(who).contains(other) <==> (next.has(other) && next.auctions[other].seller@
                == who) by {
            assert(next.listing(who) == m.listing(who));
            assert(m.listing(who).contains(other) <==> (m.has(other)
                && m.auctions[other].seller@ == who));
        }
        assert forall|who: Seq<char>, i: int, j: int|
            0 <= i < j < next.listing(who).len() implies next.listing(who)[i] < next.listing(
            who,
        )[j] by {
            assert(next.listing(who) == m.listing(who));
        }
    }
    assert(next.events_wf()) by {
        assert forall|i: int| 0 <= i < next.events.len() implies next.has(
            (#[trigger] next.events[i]).subject(),
        ) by {
            if i < m.events.len() {
                assert(m.has(m.events[i].subject()));
            }
        }
    }
}

/// Ending an auction that may be ended keeps the engine well-formed.
pub proof fn lemma_end_keeps_wf(m: Market, id: u64, now: u64)
    requires
        m.wf(),
        m.end_verdict(id, now) is Ok,
    ensures
        m.after_end(id).wf(),
{
    lemma_status_keeps_wf(m, m.after_end(id), id, AuctionStatus::Ended);
}

/// Cancelling an auction that may be cancelled keeps the engine well-formed.
pub proof fn lemma_cancel_keeps_wf(m: Market, seller: Seq<char>, id: u64)
    requires
        m.wf(),
        m.cancel_verdict(true, seller, id) is Ok,
    ensures
        m.after_cancel(id).wf(),
{
    lemma_status_keeps_wf(m, m.after_cancel(id), id, AuctionStatus::Cancelled);
}

} // verus!
