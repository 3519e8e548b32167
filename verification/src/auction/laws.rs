//! What holds of bidding, cancelling and ending, stated over the model.

use vstd::prelude::*;
use crate::address::Address;
use crate::auction::error::AuctionError;
use crate::auction::history::{law_every_history_is_wf, Call};
use crate::auction::model::{log_matches, raise_at, Market};
use crate::auction::record::AuctionStatus;

verus! {

/// An accepted bid raises the leading bid strictly, and by at least the
/// minimum increment.
pub proof fn law_bid_raises_leading_bid(
    m: Market,
    authorized: bool,
    bidder: Address,
    id: u64,
    amount: i128,
    now: u64,
)
    requires
        m.bid_verdict(authorized, id, amount, now) is Ok,
    ensures
        m.after_bid(bidder, id, amount, now).auctions[id].highest_bid == amount,
        amount > m.auctions[id].highest_bid,
        amount - m.auctions[id].highest_bid >= m.auctions[id].min_bid_increment,
{
}

/// A bid is accepted exactly when the caller is authorized, the auction
/// exists, is active and still open, and the amount exceeds the leading bid
/// and reaches the leading bid plus the minimum increment. Otherwise it fails
/// with the first of these that applies: `Unauthorized`, `NotFound`,
/// `InvalidState`, `Expired`, `BidTooLow`, `BidBelowIncrement`.
pub proof fn law_bid_accepted_iff(m: Market, authorized: bool, id: u64, amount: i128, now: u64)
    ensures
        m.bid_verdict(authorized, id, amount, now) is Ok <==> {
            &&& authorized
            &&& m.has(id)
            &&& m.auctions[id].status == AuctionStatus::Active
            &&& now < m.auctions[id].end_time
            &&& amount > m.auctions[id].highest_bid
            &&& amount >= m.auctions[id].highest_bid + m.auctions[id].min_bid_increment
        },
        m.bid_verdict(authorized, id, amount, now) == (if !authorized {
            Err::<(), AuctionError>(AuctionError::Unauthorized)
        } else if !m.has(id) {
            Err(AuctionError::NotFound)
        } else if m.auctions[id].status != AuctionStatus::Active {
            Err(AuctionError::InvalidState)
        } else if now >= m.auctions[id].end_time {
            Err(AuctionError::Expired)
        } else if amount <= m.auctions[id].highest_bid {
            Err(AuctionError::BidTooLow)
        } else if amount < m.auctions[id].highest_bid + m.auctions[id].min_bid_increment {
            Err(AuctionError::BidBelowIncrement)
        } else {
            Ok(())
        }),
{
}

/// In the bid log of an auction the amounts rise strictly from each bid to
/// every later one, each bid exceeds the one before it by at least the
/// minimum increment, and the latest amount is the leading bid.
pub proof fn law_bid_log_rises(m: Market, id: u64, i: int, j: int)
    requires
        m.wf(),
        m.has(id),
        0 <= i < j < m.bid_log(id).len(),
    ensures
        m.bid_log(id)[i].amount < m.bid_log(id)[j].amount,
        m.bid_log(id)[j].amount - m.bid_log(id)[j - 1].amount >= m.auctions[id].min_bid_increment,
        m.bid_log(id).last().amount == m.auctions[id].highest_bid,
{
    let log = m.bid_log(id);
    assert(m.bids.dom().contains(id));
    assert(log_matches(m.auctions[id], m.bids[id]));
    assert(raise_at(log, j) >= m.auctions[id].min_bid_increment);
}

/// After any history of calls since bootstrap, the amounts recorded for an
/// auction rise strictly, each by at least the minimum increment.
pub proof fn law_bids_rise_in_every_history(
    admin: Address,
    calls: Seq<Call>,
    id: u64,
    i: int,
    j: int,
)
    requires
        Market::fresh(admin).run(calls).has(id),
        0 <= i < j < Market::fresh(admin).run(calls).bid_log(id).len(),
    ensures
        ({
            let m = Market::fresh(admin).run(calls);
            &&& m.bid_log(id)[i].amount < m.bid_log(id)[j].amount
            &&& m.bid_log(id)[j].amount - m.bid_log(id)[j - 1].amount
                >= m.auctions[id].min_bid_increment
        }),
{
    law_every_history_is_wf(admin, calls);
    law_bid_log_rises(Market::fresh(admin).run(calls), id, i, j);
}

/// A cancellation succeeds exactly when the caller is authorized, the
/// auction exists, the principal is its seller, the auction is active and
/// its bid log is empty. Otherwise it fails with the first of these that
/// applies: `Unauthorized` without the identity check, `NotFound` for an
/// unknown identifier, `NotSeller` for a principal other than the seller,
/// `InvalidState` when the auction is not active, `HasBids` when it has bids.
pub proof fn law_cancel_succeeds_iff(m: Market, authorized: bool, seller: Seq<char>, id: u64)
    ensures
        m.cancel_verdict(authorized, seller, id) is Ok <==> {
            &&& authorized
            &&& m.has(id)
            &&& m.auctions[id].seller@ == seller
            &&& m.auctions[id].status == AuctionStatus::Active
            &&& m.bid_log(id).len() == 0
        },
        m.cancel_verdict(authorized, seller, id) == (if !authorized {
            Err::<(), AuctionError>(AuctionError::Unauthorized)
        } else if !m.has(id) {
            Err(AuctionError::NotFound)
        } else if m.auctions[id].seller@ != seller {
            Err(AuctionError::NotSeller)
        } else if m.auctions[id].status != AuctionStatus::Active {
            Err(AuctionError::InvalidState)
        } else if m.bid_log(id).len() > 0 {
            Err(AuctionError::HasBids)
        } else {
            Ok(())
        }),
{
}

/// While there is no bid the seller is the nominal leader; so once anyone
/// else leads an auction, it has a bid and can no longer be cancelled.
pub proof fn law_no_cancel_once_outbid(m: Market, authorized: bool, seller: Seq<char>, id: u64)
    requires
        m.wf(),
        m.has(id),
        m.auctions[id].highest_bidder@ != m.auctions[id].seller@,
    ensures
        m.bid_log(id).len() > 0,
        m.cancel_verdict(authorized, seller, id) is Err,
{
    assert(m.bids.dom().contains(id));
    assert(log_matches(m.auctions[id], m.bids[id]));
}

/// A cancelled auction has no bids.
pub proof fn law_cancelled_has_no_bids(m: Market, id: u64)
    requires
        m.wf(),
        m.has(id),
        m.auctions[id].status == AuctionStatus::Cancelled,
    ensures
        m.bid_log(id).len() == 0,
{
    assert(m.bids.dom().contains(id));
    assert(log_matches(m.auctions[id], m.bids[id]));
}

/// Ending succeeds exactly when the auction exists, is active, and its time
/// window has elapsed. Otherwise it fails with `NotFound` for an unknown
/// identifier, with `InvalidState` when the auction is not active, and with
/// `StillActive` when it is active but its window is still open.
pub proof fn law_end_succeeds_iff(m: Market, id: u64, now: u64)
    ensures
        m.end_verdict(id, now) is Ok <==> {
            &&& m.has(id)
            &&& m.auctions[id].status == AuctionStatus::Active
            &&& now >= m.auctions[id].end_time
        },
        m.end_verdict(id, now) == (if !m.has(id) {
            Err::<(), AuctionError>(AuctionError::NotFound)
        } else if m.auctions[id].status != AuctionStatus::Active {
            Err(AuctionError::InvalidState)
        } else if now < m.auctions[id].end_time {
            Err(AuctionError::StillActive)
        } else {
            Ok(())
        }),
{
}

/// An auction is ended once only: after it was ended, ending it again
/// fails with `InvalidState`, whatever the time.
pub proof fn law_end_only_once(m: Market, id: u64, now: u64, later: u64)
    requires
        m.end_verdict(id, now) is Ok,
    ensures
        m.after_end(id).end_verdict(id, later) == Err::<(), AuctionError>(
            AuctionError::InvalidState,
        ),
{
}

/// Once an auction has ended or was cancelled, every later call to bid on
/// it, end it or cancel it fails with `InvalidState`, provided the call gets
/// as far as the state check.
pub proof fn law_closed_auction_refuses(
    m: Market,
    id: u64,
    amount: i128,
    now: u64,
)
    requires
        m.has(id),
        m.auctions[id].status != AuctionStatus::Active,
    ensures
        m.bid_verdict(true, id, amount, now) == Err::<(), AuctionError>(
            AuctionError::InvalidState,
        ),
        m.end_verdict(id, now) == Err::<(), AuctionError>(AuctionError::InvalidState),
        m.cancel_verdict(true, m.auctions[id].seller@, id) == Err::<(), AuctionError>(
            AuctionError::InvalidState,
        ),
{
}

/// An auction of no duration closes when it starts, so it can be ended at
/// once, and a bid made then is refused as `Expired`.
pub proof fn law_zero_duration(
    m: Market,
    seller: Address,
    nft_contract: Address,
    nft_token_id: u64,
    starting_price: i128,
    min_bid_increment: i128,
    asset: String,
    now: u64,
    amount: i128,
)
    requires
        m.wf(),
        m.next_auction_id < u64::MAX,
    ensures
        ({
            let id = m.next_auction_id;
            let next = m.after_create(
                seller,
                nft_contract,
                nft_token_id,
                starting_price,
                min_bid_increment,
                0,
                asset,
                now,
            );
            &&& next.auctions[id].end_time == next.auctions[id].start_time
            &&& next.end_verdict(id, now) is Ok
            &&& next.bid_verdict(true, id, amount, now) == Err::<(), AuctionError>(
                AuctionError::Expired,
            )
        }),
{
}

/// A sequence of identifiers that rises strictly.
pub open spec fn rises(ids: Seq<u64>) -> bool {
    forall|i: int, j: int| 0 <= i < j < ids.len() ==> ids[i] < ids[j]
}

/// Two strictly rising sequences that hold the same identifiers are the same
/// sequence. So to say which identifiers a rising listing holds is to say
/// what the listing is.
pub proof fn law_rising_listing_is_unique(a: Seq<u64>, b: Seq<u64>)
    requires
        rises(a),
        rises(b),
        forall|id: u64| a.contains(id) <==> b.contains(id),
    ensures
        a == b,
    decreases a.len(),
{
    if a.len() == 0 {
        if b.len() > 0 {
            assert(b.contains(b[0]));
        }
        assert(a =~= b);
    } else {
        assert(a.contains(a.last()));
        assert(b.contains(a.last()));
        assert(b.contains(b.last()));
        assert(a.contains(b.last()));
        let ia = choose|i: int| 0 <= i < a.len() && a[i] == b.last();
        let ib = choose|i: int| 0 <= i < b.len() && b[i] == a.last();
        assert(a.last() == b.last()) by {
            if ia < a.len() - 1 {
                assert(a[ia] < a[a.len() - 1]);
            }
            if ib < b.len() - 1 {
                assert(b[ib] < b[b.len() - 1]);
            }
        }
        let a0 = a.drop_last();
        let b0 = b.drop_last();
        assert forall|id: u64| a0.contains(id) <==> b0.contains(id) by {
            if a0.contains(id) {
                let i = choose|i: int| 0 <= i < a0.len() && a0[i] == id;
                assert(a[i] == id);
                assert(a[i] < a[a.len() - 1]);
                assert(a.contains(id));
                let k = choose|k: int| 0 <= k < b.len() && b[k] == id;
                assert(b0[k] == id);
            }
            if b0.contains(id) {
                let i = choose|i: int| 0 <= i < b0.len() && b0[i] == id;
                assert(b[i] == id);
                assert(b[i] < b[b.len() - 1]);
                assert(b.contains(id));
                let k = choose|k: int| 0 <= k < a.len() && a[k] == id;
                assert(a0[k] == id);
            }
        }
        law_rising_listing_is_unique(a0, b0);
        assert(a =~= a0.push(a.last()));
        assert(b =~= b0.push(b.last()));
    }
}

/// The listing of a seller holds exactly the auctions that the seller
/// created, whatever became of them.
pub proof fn law_listing_is_exact(m: Market, seller: Seq<char>, id: u64)
    requires
        m.wf(),
    ensures
        m.listing(seller).contains(id) <==> (m.has(id) && m.auctions[id].seller@ == seller),
        rises(m.listing(seller)),
{
}

/// The identifiers given out are exactly those from 1 up to the counter:
/// none is skipped and none is used twice.
pub proof fn law_identifiers_are_gapless(m: Market, id: u64)
    requires
        m.wf(),
    ensures
        m.has(id) <==> 1 <= id < m.next_auction_id,
        m.has(id) ==> m.auctions[id].id == id,
{
}

} // verus!
