use auctions::{AuctionError, Bid, Effect, NativeAuction};

const NEAR: u128 = 1_000_000_000_000_000_000_000_000;
const NOW: u64 = 1_700_000_000_000;
const DAY_MS: u64 = 86_400_000;

fn s(x: &str) -> String {
    x.to_string()
}

fn open_auction() -> NativeAuction {
    NativeAuction::init(NOW + DAY_MS, s("auctioneer.test"), s("nft.test"), s("token-1"))
}

#[test]
fn init_stores_terms_and_starts_unclaimed() {
    let a = open_auction();
    let info = a.auction_info();
    assert_eq!(info.end_time, NOW + DAY_MS);
    assert_eq!(info.auctioneer, "auctioneer.test");
    assert_eq!(info.asset_contract, "nft.test");
    assert_eq!(info.asset_id, "token-1");
    assert_eq!(info.highest_bid, None);
    assert!(!info.claimed);
    assert!(!a.claimed());
}

#[test]
fn init_accepts_any_end_time() {
    for end_time in [0u64, 1, NOW, u64::MAX] {
        let a = NativeAuction::init(end_time, s("a"), s("n"), s("t"));
        assert_eq!(a.auction_info().end_time, end_time);
        assert_eq!(a.highest_bid(), None);
        assert!(!a.claimed());
    }
}

#[test]
fn outbid_refunds_and_low_bid_is_refused() {
    let mut a = open_auction();
    let e = a.bid(s("alice.test"), 2 * NEAR, NOW + 1).unwrap();
    assert!(e.is_empty());
    assert_eq!(a.highest_bid().unwrap().bidder, "alice.test");

    let e = a.bid(s("bob.test"), 3 * NEAR, NOW + 2).unwrap();
    assert_eq!(e, vec![Effect::NativeTransfer { receiver: s("alice.test"), amount: 2 * NEAR }]);
    assert_eq!(a.highest_bid().unwrap(), Bid { bidder: s("bob.test"), amount: 3 * NEAR });

    let r = a.bid(s("alice.test"), NEAR, NOW + 3);
    assert_eq!(r, Err(AuctionError::BidTooLow));
    assert_eq!(a.highest_bid().unwrap(), Bid { bidder: s("bob.test"), amount: 3 * NEAR });
}

#[test]
fn equal_bid_is_too_low() {
    let mut a = open_auction();
    a.bid(s("alice.test"), 5, NOW + 1).unwrap();
    assert_eq!(a.bid(s("bob.test"), 5, NOW + 2), Err(AuctionError::BidTooLow));
}

#[test]
fn zero_bid_without_prior_bid_is_too_low() {
    let mut a = open_auction();
    assert_eq!(a.bid(s("alice.test"), 0, NOW + 1), Err(AuctionError::BidTooLow));
    assert_eq!(a.highest_bid(), None);
}

#[test]
fn claim_before_end_is_refused() {
    let mut a = open_auction();
    a.bid(s("alice.test"), NEAR, NOW + 1).unwrap();
    assert_eq!(a.claim(NOW + DAY_MS - 1), Err(AuctionError::NotEnded));
    assert!(!a.claimed());
}

#[test]
fn claim_pays_auctioneer_and_hands_over_asset() {
    let mut a = open_auction();
    a.bid(s("alice.test"), 2 * NEAR, NOW + 1).unwrap();
    let e = a.claim(NOW + DAY_MS).unwrap();
    assert_eq!(
        e,
        vec![
            Effect::NativeTransfer { receiver: s("auctioneer.test"), amount: 2 * NEAR },
            Effect::AssetTransfer {
                asset_contract: s("nft.test"),
                asset_id: s("token-1"),
                receiver: s("alice.test"),
            },
        ]
    );
    assert!(a.claimed());
    assert_eq!(a.claim(NOW + DAY_MS + 1), Err(AuctionError::AlreadyClaimed));
}

#[test]
fn past_end_time_refuses_bids_and_settles_once() {
    let mut a = NativeAuction::init(1, s("auctioneer.test"), s("nft.test"), s("token-1"));
    assert_eq!(a.bid(s("alice.test"), 5 * NEAR, NOW), Err(AuctionError::NotOpen));
    assert_eq!(a.highest_bid(), None);
    let e = a.claim(NOW).unwrap();
    assert!(e.is_empty());
    assert!(a.claimed());
    assert_eq!(a.claim(NOW + 1), Err(AuctionError::AlreadyClaimed));
}

#[test]
fn bid_after_claim_is_not_open() {
    let mut a = NativeAuction::init(10, s("x"), s("y"), s("z"));
    a.bid(s("alice.test"), 3, 5).unwrap();
    a.claim(10).unwrap();
    assert_eq!(a.bid(s("bob.test"), 100, 10), Err(AuctionError::NotOpen));
    assert_eq!(a.highest_bid().unwrap(), Bid { bidder: s("alice.test"), amount: 3 });
}

#[test]
fn highest_amount_never_decreases_over_bids() {
    let mut a = open_auction();
    let attempts: [(&str, u128); 6] =
        [("a", 10), ("b", 5), ("c", 10), ("d", 11), ("e", 1), ("f", 40)];
    let mut last: u128 = 0;
    for (i, (who, amount)) in attempts.iter().enumerate() {
        let _ = a.bid(s(who), *amount, NOW + i as u64);
        let now_amount = a.highest_bid().map(|b| b.amount).unwrap_or(0);
        assert!(now_amount >= last);
        last = now_amount;
    }
    assert_eq!(last, 40);
}
