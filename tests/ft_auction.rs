use auctions::{AuctionError, Bid, Effect, FtAuction};

const NOW: u64 = 1_700_000_000_000;
const END: u64 = NOW + 86_400_000;

fn s(x: &str) -> String {
    x.to_string()
}

fn open_auction() -> FtAuction {
    FtAuction::init(END, s("auctioneer.test"), s("ft.test"), s("nft.test"), s("token-1"), "1000")
        .unwrap()
}

#[test]
fn init_seeds_reserve_as_highest_bid() {
    let a = open_auction();
    let info = a.auction_info();
    assert_eq!(info.payment_contract, "ft.test");
    assert_eq!(info.asset_contract, "nft.test");
    assert_eq!(info.asset_id, "token-1");
    assert_eq!(info.highest_bid, Bid { bidder: s("auctioneer.test"), amount: 1000 });
    assert_eq!(a.highest_bid().amount, 1000);
    assert!(!a.claimed());
}

#[test]
fn init_refuses_malformed_starting_price() {
    let r = FtAuction::init(END, s("a"), s("f"), s("n"), s("t"), "12x");
    assert!(matches!(r, Err(AuctionError::InvalidAmount)));
}

#[test]
fn token_bids_outbid_and_wrong_caller() {
    let mut a = open_auction();
    let ft = s("ft.test");
    let e = a.on_incoming_transfer(&ft, s("alice.test"), "2000", "", NOW + 1).unwrap();
    assert!(e.is_empty(), "the reserve is not held in tokens, so nothing is refunded");
    assert_eq!(a.highest_bid(), Bid { bidder: s("alice.test"), amount: 2000 });

    let e = a.on_incoming_transfer(&ft, s("bob.test"), "3000", "", NOW + 2).unwrap();
    assert_eq!(
        e,
        vec![Effect::TokenTransfer {
            token_contract: s("ft.test"),
            receiver: s("alice.test"),
            amount: 2000,
        }]
    );
    assert_eq!(a.highest_bid(), Bid { bidder: s("bob.test"), amount: 3000 });

    let r = a.on_incoming_transfer(&ft, s("alice.test"), "500", "", NOW + 3);
    assert_eq!(r, Err(AuctionError::BidTooLow));

    let r = a.on_incoming_transfer(&s("alice.test"), s("alice.test"), "9999", "", NOW + 4);
    assert_eq!(r, Err(AuctionError::Unauthorized));
    assert_eq!(a.highest_bid(), Bid { bidder: s("bob.test"), amount: 3000 });
}

#[test]
fn bid_at_reserve_is_too_low() {
    let mut a = open_auction();
    let r = a.on_incoming_transfer(&s("ft.test"), s("alice.test"), "1000", "", NOW);
    assert_eq!(r, Err(AuctionError::BidTooLow));
}

#[test]
fn malformed_amount_is_refused() {
    let mut a = open_auction();
    let r = a.on_incoming_transfer(&s("ft.test"), s("alice.test"), "", "", NOW);
    assert_eq!(r, Err(AuctionError::InvalidAmount));
    let r = a.on_incoming_transfer(&s("ft.test"), s("alice.test"), "-5", "", NOW);
    assert_eq!(r, Err(AuctionError::InvalidAmount));
}

#[test]
fn token_claim_before_end_is_refused() {
    let mut a = open_auction();
    assert_eq!(a.claim(END - 1), Err(AuctionError::NotEnded));
}

#[test]
fn claim_pays_in_tokens() {
    let mut a = open_auction();
    a.on_incoming_transfer(&s("ft.test"), s("alice.test"), "2500", "", NOW).unwrap();
    let e = a.claim(END).unwrap();
    assert_eq!(
        e,
        vec![
            Effect::TokenTransfer {
                token_contract: s("ft.test"),
                receiver: s("auctioneer.test"),
                amount: 2500,
            },
            Effect::AssetTransfer {
                asset_contract: s("nft.test"),
                asset_id: s("token-1"),
                receiver: s("alice.test"),
            },
        ]
    );
    assert!(a.claimed());
}

#[test]
fn past_end_time_token_auction_settles_once() {
    let mut a =
        FtAuction::init(1, s("auctioneer.test"), s("ft.test"), s("nft.test"), s("token-1"), "1000")
            .unwrap();
    let r = a.on_incoming_transfer(&s("ft.test"), s("alice.test"), "5000", "", NOW);
    assert_eq!(r, Err(AuctionError::NotOpen));
    let e = a.claim(NOW).unwrap();
    assert_eq!(
        e,
        vec![Effect::AssetTransfer {
            asset_contract: s("nft.test"),
            asset_id: s("token-1"),
            receiver: s("auctioneer.test"),
        }]
    );
    assert!(a.claimed());
    assert_eq!(a.claim(NOW + 1), Err(AuctionError::AlreadyClaimed));
}

#[test]
fn wrong_caller_refused_even_with_huge_amount() {
    let mut a = open_auction();
    let r = a.on_incoming_transfer(&s("fake-ft.test"), s("x"), "340282366920938463463374607431768211455", "", NOW);
    assert_eq!(r, Err(AuctionError::Unauthorized));
}
