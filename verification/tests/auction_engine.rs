use stellar_marketplace::address::Address;
use stellar_marketplace::auction::error::AuctionError;
use stellar_marketplace::auction::event::AuctionEvent;
use stellar_marketplace::auction::record::{Auction, AuctionStatus, Bid};
use stellar_marketplace::auction::store::StellarAuction;

fn addr(text: &str) -> Address {
    Address::from_str(text)
}

fn engine() -> StellarAuction {
    StellarAuction::initialize(addr("ADMIN"))
}

fn create(engine: &mut StellarAuction, seller: &str, price: i128, step: i128, hours: u32, now: u64) -> u64 {
    engine
        .create_auction(true, addr(seller), addr("NFT"), 7, price, step, hours, "XLM".to_string(), now)
        .unwrap()
}

#[test]
fn bootstrap_sets_admin_and_counter() {
    let engine = engine();
    assert_eq!(engine.admin(), &addr("ADMIN"));
    assert_eq!(engine.next_auction_id(), 1);
    assert!(engine.events().is_empty());
    assert!(engine.get_active_auctions().is_empty());
}

#[test]
fn bidding_scenario_with_increment_and_cancel() {
    let mut engine = engine();
    let id = create(&mut engine, "S", 100, 10, 1, 1_000);
    assert_eq!(id, 1);
    assert_eq!(engine.place_bid(true, addr("B"), 1, 105, 1_001), Err(AuctionError::BidBelowIncrement));
    assert_eq!(engine.place_bid(true, addr("B"), 1, 110, 1_002), Ok(()));
    assert_eq!(engine.get_auction(1).unwrap().highest_bid, 110);
    assert_eq!(engine.get_auction(1).unwrap().highest_bidder, addr("B"));
    assert_eq!(engine.place_bid(true, addr("C"), 1, 115, 1_003), Err(AuctionError::BidBelowIncrement));
    assert_eq!(engine.place_bid(true, addr("C"), 1, 120, 1_004), Ok(()));
    assert_eq!(engine.get_auction(1).unwrap().highest_bid, 120);
    assert_eq!(engine.get_auction(1).unwrap().highest_bidder, addr("C"));
    assert_eq!(engine.cancel_auction(true, addr("S"), 1), Err(AuctionError::HasBids));
    assert_eq!(engine.get_auction(1).unwrap().status, AuctionStatus::Active);
}

#[test]
fn zero_duration_auction_can_be_ended_at_once() {
    let mut engine = engine();
    let id = create(&mut engine, "S", 100, 10, 0, 5_000);
    let auction = engine.get_auction(id).unwrap();
    assert_eq!(auction.start_time, 5_000);
    assert_eq!(auction.end_time, 5_000);
    assert_eq!(engine.end_auction(id, 5_000), Ok(()));
    assert_eq!(engine.get_auction(id).unwrap().status, AuctionStatus::Ended);
}

#[test]
fn zero_duration_auction_refuses_bids_as_expired() {
    let mut engine = engine();
    let id = create(&mut engine, "S", 100, 10, 0, 5_000);
    assert_eq!(engine.place_bid(true, addr("B"), id, 500, 5_000), Err(AuctionError::Expired));
    assert_eq!(engine.place_bid(true, addr("B"), id, 500, 9_000), Err(AuctionError::Expired));
}

#[test]
fn bid_after_end_is_refused_by_the_state_check() {
    let mut engine = engine();
    let id = create(&mut engine, "S", 100, 10, 0, 5_000);
    assert_eq!(engine.end_auction(id, 5_000), Ok(()));
    assert_eq!(engine.place_bid(true, addr("B"), id, 500, 5_001), Err(AuctionError::InvalidState));
}

#[test]
fn created_record_has_the_given_terms() {
    let mut engine = engine();
    let id = engine
        .create_auction(true, addr("S"), addr("NFT"), 42, 250, 25, 3, "KALE".to_string(), 10_000)
        .unwrap();
    let auction = engine.get_auction(id).unwrap();
    assert_eq!(
        auction,
        Auction {
            id: 1,
            nft_contract: addr("NFT"),
            nft_token_id: 42,
            seller: addr("S"),
            highest_bidder: addr("S"),
            highest_bid: 250,
            min_bid_increment: 25,
            start_time: 10_000,
            end_time: 10_000 + 3 * 3600,
            asset: "KALE".to_string(),
            status: AuctionStatus::Active,
        }
    );
    assert_eq!(auction.end_time, 20_800);
}

#[test]
fn identifiers_are_given_out_in_order() {
    let mut engine = engine();
    assert_eq!(create(&mut engine, "S", 1, 1, 1, 0), 1);
    assert_eq!(create(&mut engine, "T", 1, 1, 1, 0), 2);
    assert_eq!(create(&mut engine, "S", 1, 1, 1, 0), 3);
    assert_eq!(engine.next_auction_id(), 4);
    assert_eq!(engine.get_auction(2).unwrap().id, 2);
}

#[test]
fn unauthorized_creation_changes_nothing() {
    let mut engine = engine();
    let outcome =
        engine.create_auction(false, addr("S"), addr("NFT"), 7, 100, 10, 1, "XLM".to_string(), 0);
    assert_eq!(outcome, Err(AuctionError::Unauthorized));
    assert_eq!(engine.next_auction_id(), 1);
    assert!(engine.events().is_empty());
    assert!(engine.get_seller_auctions(addr("S")).is_empty());
    assert_eq!(engine.get_auction(1), Err(AuctionError::NotFound));
}

#[test]
fn unauthorized_bid_is_refused_first() {
    let mut engine = engine();
    create(&mut engine, "S", 100, 10, 1, 0);
    assert_eq!(engine.place_bid(false, addr("B"), 1, 500, 1), Err(AuctionError::Unauthorized));
    assert_eq!(engine.place_bid(false, addr("B"), 9, 500, 1), Err(AuctionError::Unauthorized));
    assert!(engine.get_auction_bids(1).is_empty());
}

#[test]
fn unknown_auction_is_not_found() {
    let mut engine = engine();
    create(&mut engine, "S", 100, 10, 1, 0);
    assert_eq!(engine.place_bid(true, addr("B"), 2, 500, 1), Err(AuctionError::NotFound));
    assert_eq!(engine.place_bid(true, addr("B"), 0, 500, 1), Err(AuctionError::NotFound));
    assert_eq!(engine.end_auction(2, 100_000), Err(AuctionError::NotFound));
    assert_eq!(engine.cancel_auction(true, addr("S"), 2), Err(AuctionError::NotFound));
    assert_eq!(engine.get_auction(0), Err(AuctionError::NotFound));
    assert_eq!(engine.get_auction(u64::MAX), Err(AuctionError::NotFound));
    assert!(engine.get_auction_bids(2).is_empty());
}

#[test]
fn bid_must_exceed_the_leading_bid() {
    let mut engine = engine();
    create(&mut engine, "S", 100, 10, 1, 0);
    assert_eq!(engine.place_bid(true, addr("B"), 1, 100, 1), Err(AuctionError::BidTooLow));
    assert_eq!(engine.place_bid(true, addr("B"), 1, 99, 1), Err(AuctionError::BidTooLow));
    assert_eq!(engine.place_bid(true, addr("B"), 1, 101, 1), Err(AuctionError::BidBelowIncrement));
    assert_eq!(engine.place_bid(true, addr("B"), 1, 109, 1), Err(AuctionError::BidBelowIncrement));
    assert_eq!(engine.place_bid(true, addr("B"), 1, 110, 1), Ok(()));
}

#[test]
fn bid_at_closing_time_is_expired() {
    let mut engine = engine();
    create(&mut engine, "S", 100, 10, 1, 1_000);
    assert_eq!(engine.place_bid(true, addr("B"), 1, 110, 4_599), Ok(()));
    assert_eq!(engine.place_bid(true, addr("C"), 1, 120, 4_600), Err(AuctionError::Expired));
    assert_eq!(engine.place_bid(true, addr("C"), 1, 120, 4_601), Err(AuctionError::Expired));
    assert_eq!(engine.get_auction(1).unwrap().highest_bid, 110);
}

#[test]
fn expiry_is_checked_before_the_amount() {
    let mut engine = engine();
    create(&mut engine, "S", 100, 10, 1, 1_000);
    assert_eq!(engine.place_bid(true, addr("B"), 1, 1, 4_600), Err(AuctionError::Expired));
}

#[test]
fn increment_beyond_the_range_of_amounts_admits_no_bid() {
    let mut engine = engine();
    create(&mut engine, "S", i128::MAX - 5, 10, 1, 0);
    assert_eq!(
        engine.place_bid(true, addr("B"), 1, i128::MAX, 1),
        Err(AuctionError::BidBelowIncrement)
    );
    assert_eq!(engine.place_bid(true, addr("B"), 1, i128::MAX - 5, 1), Err(AuctionError::BidTooLow));
}

#[test]
fn negative_increment_leaves_only_the_strict_raise() {
    let mut engine = engine();
    create(&mut engine, "S", i128::MIN + 3, -10, 1, 0);
    assert_eq!(engine.place_bid(true, addr("B"), 1, i128::MIN + 3, 1), Err(AuctionError::BidTooLow));
    assert_eq!(engine.place_bid(true, addr("B"), 1, i128::MIN + 4, 1), Ok(()));
}

#[test]
fn end_before_closing_time_is_still_active() {
    let mut engine = engine();
    create(&mut engine, "S", 100, 10, 2, 1_000);
    assert_eq!(engine.end_auction(1, 1_000), Err(AuctionError::StillActive));
    assert_eq!(engine.end_auction(1, 8_199), Err(AuctionError::StillActive));
    assert_eq!(engine.get_auction(1).unwrap().status, AuctionStatus::Active);
    assert_eq!(engine.end_auction(1, 8_200), Ok(()));
    assert_eq!(engine.get_auction(1).unwrap().status, AuctionStatus::Ended);
}

#[test]
fn second_end_is_invalid_state() {
    let mut engine = engine();
    create(&mut engine, "S", 100, 10, 1, 0);
    assert_eq!(engine.end_auction(1, 3_600), Ok(()));
    assert_eq!(engine.end_auction(1, 3_600), Err(AuctionError::InvalidState));
    assert_eq!(engine.end_auction(1, 0), Err(AuctionError::InvalidState));
    assert_eq!(engine.events().len(), 2);
}

#[test]
fn end_keeps_leader_and_amount_as_outcome() {
    let mut engine = engine();
    create(&mut engine, "S", 100, 10, 1, 0);
    assert_eq!(engine.place_bid(true, addr("B"), 1, 150, 10), Ok(()));
    assert_eq!(engine.end_auction(1, 3_600), Ok(()));
    let auction = engine.get_auction(1).unwrap();
    assert_eq!(auction.highest_bidder, addr("B"));
    assert_eq!(auction.highest_bid, 150);
    assert_eq!(
        engine.events().last(),
        Some(&AuctionEvent::Ended { auction_id: 1, highest_bidder: addr("B"), highest_bid: 150 })
    );
}

#[test]
fn cancel_succeeds_while_active_and_without_bids() {
    let mut engine = engine();
    create(&mut engine, "S", 100, 10, 1, 0);
    assert_eq!(engine.cancel_auction(true, addr("S"), 1), Ok(()));
    assert_eq!(engine.get_auction(1).unwrap().status, AuctionStatus::Cancelled);
    assert_eq!(engine.events().last(), Some(&AuctionEvent::Cancelled { auction_id: 1 }));
}

#[test]
fn cancel_refusals_come_in_order() {
    let mut engine = engine();
    create(&mut engine, "S", 100, 10, 1, 0);
    assert_eq!(engine.cancel_auction(false, addr("S"), 1), Err(AuctionError::Unauthorized));
    assert_eq!(engine.cancel_auction(true, addr("T"), 1), Err(AuctionError::NotSeller));
    assert_eq!(engine.place_bid(true, addr("B"), 1, 110, 1), Ok(()));
    assert_eq!(engine.cancel_auction(true, addr("T"), 1), Err(AuctionError::NotSeller));
    assert_eq!(engine.cancel_auction(true, addr("S"), 1), Err(AuctionError::HasBids));
    assert_eq!(engine.end_auction(1, 3_600), Ok(()));
    assert_eq!(engine.cancel_auction(true, addr("S"), 1), Err(AuctionError::InvalidState));
    assert_eq!(engine.cancel_auction(true, addr("T"), 1), Err(AuctionError::NotSeller));
}

#[test]
fn cancelled_auction_is_closed_for_good() {
    let mut engine = engine();
    create(&mut engine, "S", 100, 10, 1, 0);
    assert_eq!(engine.cancel_auction(true, addr("S"), 1), Ok(()));
    assert_eq!(engine.cancel_auction(true, addr("S"), 1), Err(AuctionError::InvalidState));
    assert_eq!(engine.place_bid(true, addr("B"), 1, 500, 1), Err(AuctionError::InvalidState));
    assert_eq!(engine.end_auction(1, 100_000), Err(AuctionError::InvalidState));
    assert_eq!(engine.get_auction(1).unwrap().status, AuctionStatus::Cancelled);
}

#[test]
fn seller_may_bid_and_then_cannot_cancel() {
    let mut engine = engine();
    create(&mut engine, "S", 100, 10, 1, 0);
    assert_eq!(engine.place_bid(true, addr("S"), 1, 110, 1), Ok(()));
    assert_eq!(engine.get_auction(1).unwrap().highest_bidder, addr("S"));
    assert_eq!(engine.cancel_auction(true, addr("S"), 1), Err(AuctionError::HasBids));
}

#[test]
fn bid_log_keeps_bids_in_order() {
    let mut engine = engine();
    create(&mut engine, "S", 100, 10, 1, 0);
    assert_eq!(engine.place_bid(true, addr("B"), 1, 110, 5), Ok(()));
    assert_eq!(engine.place_bid(true, addr("C"), 1, 111, 6), Err(AuctionError::BidBelowIncrement));
    assert_eq!(engine.place_bid(true, addr("C"), 1, 130, 7), Ok(()));
    assert_eq!(engine.place_bid(true, addr("B"), 1, 140, 7), Ok(()));
    assert_eq!(
        engine.get_auction_bids(1),
        vec![
            Bid { bidder: addr("B"), amount: 110, timestamp: 5 },
            Bid { bidder: addr("C"), amount: 130, timestamp: 7 },
            Bid { bidder: addr("B"), amount: 140, timestamp: 7 },
        ]
    );
}

#[test]
fn recorded_amounts_rise_by_at_least_the_increment() {
    let mut engine = engine();
    create(&mut engine, "S", 100, 7, 1, 0);
    let offers: [i128; 9] = [100, 107, 110, 114, 200, 206, 207, 214, 213];
    let mut now = 1;
    for offer in offers {
        let _ = engine.place_bid(true, addr("B"), 1, offer, now);
        now += 1;
    }
    let log = engine.get_auction_bids(1);
    let amounts: Vec<i128> = log.iter().map(|bid| bid.amount).collect();
    assert_eq!(amounts, vec![107, 114, 200, 207, 214]);
    for pair in amounts.windows(2) {
        assert!(pair[1] > pair[0]);
        assert!(pair[1] - pair[0] >= 7);
    }
    assert_eq!(engine.get_auction(1).unwrap().highest_bid, 214);
}

#[test]
fn refused_calls_leave_the_state_as_it_was() {
    let mut engine = engine();
    create(&mut engine, "S", 100, 10, 1, 0);
    assert_eq!(engine.place_bid(true, addr("B"), 1, 110, 1), Ok(()));
    let auction = engine.get_auction(1).unwrap();
    let bids = engine.get_auction_bids(1);
    let events = engine.events().clone();
    assert!(engine.place_bid(true, addr("C"), 1, 110, 2).is_err());
    assert!(engine.place_bid(true, addr("C"), 1, 115, 2).is_err());
    assert!(engine.place_bid(false, addr("C"), 1, 500, 2).is_err());
    assert!(engine.end_auction(1, 2).is_err());
    assert!(engine.cancel_auction(true, addr("S"), 1).is_err());
    assert!(engine.cancel_auction(true, addr("C"), 1).is_err());
    assert_eq!(engine.get_auction(1).unwrap(), auction);
    assert_eq!(engine.get_auction_bids(1), bids);
    assert_eq!(engine.events(), &events);
    assert_eq!(engine.next_auction_id(), 2);
}

#[test]
fn reads_are_repeatable() {
    let mut engine = engine();
    create(&mut engine, "S", 100, 10, 1, 0);
    assert_eq!(engine.place_bid(true, addr("B"), 1, 110, 1), Ok(()));
    assert_eq!(engine.get_auction(1), engine.get_auction(1));
    assert_eq!(engine.get_auction_bids(1), engine.get_auction_bids(1));
    assert_eq!(engine.get_active_auctions(), engine.get_active_auctions());
    assert_eq!(engine.get_seller_auctions(addr("S")), engine.get_seller_auctions(addr("S")));
    assert_eq!(engine.place_bid(true, addr("C"), 1, 120, 2), Ok(()));
    assert_eq!(engine.get_auction(1).unwrap().highest_bid, 120);
    assert_eq!(engine.get_auction_bids(1).len(), 2);
}

#[test]
fn seller_listing_is_historical() {
    let mut engine = engine();
    create(&mut engine, "S", 1, 1, 0, 0);
    create(&mut engine, "T", 1, 1, 1, 0);
    create(&mut engine, "S", 1, 1, 1, 0);
    create(&mut engine, "S", 1, 1, 1, 0);
    assert_eq!(engine.end_auction(1, 0), Ok(()));
    assert_eq!(engine.cancel_auction(true, addr("S"), 3), Ok(()));
    assert_eq!(engine.get_seller_auctions(addr("S")), vec![1, 3, 4]);
    assert_eq!(engine.get_seller_auctions(addr("T")), vec![2]);
    assert!(engine.get_seller_auctions(addr("U")).is_empty());
}

#[test]
fn active_listing_holds_exactly_the_active_auctions() {
    let mut engine = engine();
    for _ in 0..6 {
        create(&mut engine, "S", 100, 10, 1, 0);
    }
    assert_eq!(engine.get_active_auctions(), vec![1, 2, 3, 4, 5, 6]);
    assert_eq!(engine.end_auction(2, 3_600), Ok(()));
    assert_eq!(engine.cancel_auction(true, addr("S"), 5), Ok(()));
    assert_eq!(engine.place_bid(true, addr("B"), 3, 110, 1), Ok(()));
    assert_eq!(engine.get_active_auctions(), vec![1, 3, 4, 6]);
    for id in 1..=6u64 {
        let active = engine.get_auction(id).unwrap().status == AuctionStatus::Active;
        assert_eq!(engine.get_active_auctions().contains(&id), active);
    }
    assert_eq!(engine.end_auction(1, 3_600), Ok(()));
    assert_eq!(engine.end_auction(3, 3_600), Ok(()));
    assert_eq!(engine.end_auction(4, 3_600), Ok(()));
    assert_eq!(engine.end_auction(6, 3_600), Ok(()));
    assert!(engine.get_active_auctions().is_empty());
}

#[test]
fn expired_but_not_ended_auction_is_still_listed_as_active() {
    let mut engine = engine();
    create(&mut engine, "S", 100, 10, 0, 0);
    assert_eq!(engine.get_active_auctions(), vec![1]);
}

#[test]
fn one_event_for_each_committed_call() {
    let mut engine = engine();
    create(&mut engine, "S", 100, 10, 1, 0);
    assert_eq!(engine.place_bid(true, addr("B"), 1, 105, 1), Err(AuctionError::BidBelowIncrement));
    assert_eq!(engine.place_bid(true, addr("B"), 1, 110, 1), Ok(()));
    create(&mut engine, "T", 5, 1, 1, 0);
    assert_eq!(engine.cancel_auction(true, addr("T"), 2), Ok(()));
    assert_eq!(engine.end_auction(1, 3_600), Ok(()));
    assert_eq!(
        engine.events(),
        &vec![
            AuctionEvent::Created {
                auction_id: 1,
                seller: addr("S"),
                nft_contract: addr("NFT"),
                nft_token_id: 7,
            },
            AuctionEvent::BidPlaced { auction_id: 1, bidder: addr("B"), amount: 110 },
            AuctionEvent::Created {
                auction_id: 2,
                seller: addr("T"),
                nft_contract: addr("NFT"),
                nft_token_id: 7,
            },
            AuctionEvent::Cancelled { auction_id: 2 },
            AuctionEvent::Ended { auction_id: 1, highest_bidder: addr("B"), highest_bid: 110 },
        ]
    );
    let subjects: Vec<u64> = engine.events().iter().map(|event| event.auction_id()).collect();
    assert_eq!(subjects, vec![1, 1, 2, 2, 1]);
}
