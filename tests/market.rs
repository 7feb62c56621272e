use nft_market::{
    Effect, MarketError, NFTMarket, CREATE_AUCTION_FEE, ENROLL_FEE, MAX_SECONDS, MINT_FEE,
    NANOS_PER_SECOND,
};

const NEAR: u128 = 1_000_000_000_000_000_000_000_000;

fn s(x: &str) -> String {
    String::from(x)
}

fn at(seconds: u64) -> u64 {
    seconds * NANOS_PER_SECOND
}

fn market() -> NFTMarket {
    NFTMarket::new(s("senna.testnet"), s("market.testnet"))
}

/// A market holding auction 0 on token "1", opened by alice.
fn market_with_auction(start_price: u128, start: u64, end: u64) -> NFTMarket {
    let mut m = market();
    let alice = s("alice.testnet");
    m.create_auction(&alice, Some(alice.clone()), CREATE_AUCTION_FEE, s("1"), start_price, start, end)
        .unwrap();
    m
}

#[test]
fn test_auction_panic_not_own_nft() {
    let mut m = market();
    let r = m.create_auction(
        &s("senna.testnet"),
        Some(s("bob.testnet")),
        CREATE_AUCTION_FEE,
        s("1"),
        1_000_000_000_000_000_000_000_000,
        100,
        3700,
    );
    assert_eq!(r.unwrap_err(), MarketError::NotTokenOwner);
    assert_eq!(m.total_auctions(), 0);
}

#[test]
fn test_auction_panic_bid_too_early() {
    let mut m = market();
    let alice = s("alice.testnet");
    let (auction, _) = m
        .create_auction(&alice, Some(alice.clone()), CREATE_AUCTION_FEE, s("1"), 1_000_000_000, 1000, 4600)
        .unwrap();
    assert_eq!(auction.start_time, 1000 * NANOS_PER_SECOND);
    assert_eq!(auction.end_time, 4600 * NANOS_PER_SECOND);
    let r = m.bid(&s("bob.testnet"), 50, 1_500_000_000_000_000_000_000_000, 0);
    assert_eq!(r, Err(MarketError::NotStarted));
}

#[test]
fn mint_requires_exact_fee() {
    let m = market();
    assert_eq!(m.mint(MINT_FEE), Ok(()));
    assert_eq!(m.mint(0), Err(MarketError::WrongMintFee));
}

#[test]
fn scenario_d_mint_with_wrong_fee_fails() {
    let m = market();
    assert_eq!(m.mint(MINT_FEE - 1), Err(MarketError::WrongMintFee));
    assert_eq!(m.mint(MINT_FEE + 1), Err(MarketError::WrongMintFee));
}

#[test]
fn create_auction_locks_token_and_moves_it_to_custody() {
    let mut m = market();
    let alice = s("alice.testnet");
    assert!(!m.is_auctioned(&s("1")));
    let (auction, effect) = m
        .create_auction(&alice, Some(alice.clone()), CREATE_AUCTION_FEE, s("1"), 100, 1000, 2000)
        .unwrap();
    assert!(m.is_auctioned(&s("1")));
    assert_eq!(
        effect,
        Effect::MoveToken { token_id: s("1"), from: alice.clone(), to: s("market.testnet") }
    );
    assert_eq!(auction.auction_id, 0);
    assert_eq!(auction.owner, alice);
    assert_eq!(auction.current_price, 100);
    assert_eq!(auction.start_price, 100);
    assert_eq!(auction.winner, None);
    assert!(!auction.is_near_claimed);
    assert!(!auction.is_nft_claimed);
    assert_eq!(m.total_auctions(), 1);
    assert_eq!(m.get_auction(0).unwrap().auction_token, s("1"));
}

#[test]
fn create_auction_errors() {
    let mut m = market_with_auction(100, 1000, 2000);
    let alice = s("alice.testnet");
    let bob = s("bob.testnet");
    assert_eq!(
        m.create_auction(&bob, None, CREATE_AUCTION_FEE, s("9"), 1, 1, 2).unwrap_err(),
        MarketError::TokenNotFound
    );
    assert_eq!(
        m.create_auction(&alice, Some(alice.clone()), CREATE_AUCTION_FEE, s("1"), 1, 1, 2).unwrap_err(),
        MarketError::AlreadyAuctioned
    );
    assert_eq!(
        m.create_auction(&bob, Some(bob.clone()), NEAR - 1, s("2"), 1, 1, 2).unwrap_err(),
        MarketError::WrongAuctionFee
    );
    assert_eq!(
        m.create_auction(&bob, Some(bob.clone()), CREATE_AUCTION_FEE, s("2"), 1, 5, 5).unwrap_err(),
        MarketError::InvalidWindow
    );
    assert_eq!(m.total_auctions(), 1);
    assert!(!m.is_auctioned(&s("2")));
}

#[test]
fn create_auction_at_largest_time() {
    let mut m = market();
    let bob = s("bob.testnet");
    let (a, _) = m
        .create_auction(&bob, Some(bob.clone()), CREATE_AUCTION_FEE, s("2"), 1, 0, MAX_SECONDS)
        .unwrap();
    assert_eq!(a.end_time, 18_446_744_073_000_000_000);
}

#[test]
fn auction_ids_follow_the_counter_and_the_seller_index() {
    let mut m = market();
    let alice = s("alice.testnet");
    let bob = s("bob.testnet");
    m.create_auction(&alice, Some(alice.clone()), CREATE_AUCTION_FEE, s("a"), 1, 1, 2).unwrap();
    m.create_auction(&bob, Some(bob.clone()), CREATE_AUCTION_FEE, s("b"), 1, 1, 2).unwrap();
    let (third, _) =
        m.create_auction(&alice, Some(alice.clone()), CREATE_AUCTION_FEE, s("c"), 1, 1, 2).unwrap();
    assert_eq!(third.auction_id, 2);
    assert_eq!(m.auction_ids_of(&alice), vec![0, 2]);
    assert_eq!(m.auction_ids_of(&bob), vec![1]);
    assert_eq!(m.auction_ids_of(&s("carol.testnet")), Vec::<u128>::new());
}

#[test]
fn get_auction_unknown_id_fails() {
    let m = market_with_auction(100, 1000, 2000);
    assert_eq!(m.get_auction(1).unwrap_err(), MarketError::AuctionNotFound);
}

#[test]
fn scenario_a_bids_raise_price_and_refund_displaced_bidder() {
    let mut m = market_with_auction(100 * NEAR, 1000, 2000);
    let bidder1 = s("bob.testnet");
    let bidder2 = s("carol.testnet");
    assert_eq!(m.bid(&bidder1, at(1500), 150 * NEAR, 0), Ok(None));
    let a = m.get_auction(0).unwrap();
    assert_eq!(a.winner, Some(bidder1.clone()));
    assert_eq!(a.current_price, 150 * NEAR);
    assert_eq!(m.bid(&bidder2, at(1600), 120 * NEAR, 0), Err(MarketError::BidTooLow));
    assert_eq!(
        m.bid(&bidder2, at(1700), 200 * NEAR, 0),
        Ok(Some(Effect::PayNear { to: bidder1, amount: 150 * NEAR - ENROLL_FEE }))
    );
    let a = m.get_auction(0).unwrap();
    assert_eq!(a.winner, Some(bidder2));
    assert_eq!(a.current_price, 200 * NEAR);
}

#[test]
fn bid_equal_to_price_is_refused() {
    let mut m = market_with_auction(100, 1000, 2000);
    assert_eq!(m.bid(&s("bob.testnet"), at(1500), 100, 0), Err(MarketError::BidTooLow));
    assert_eq!(m.bid(&s("bob.testnet"), at(1500), 101, 0), Ok(None));
}

#[test]
fn bid_at_window_boundaries_fails() {
    let mut m = market_with_auction(100, 1000, 2000);
    let bob = s("bob.testnet");
    assert_eq!(m.bid(&bob, at(1000), 200, 0), Err(MarketError::NotStarted));
    assert_eq!(m.bid(&bob, at(2000), 200, 0), Err(MarketError::AlreadyEnded));
    assert_eq!(m.bid(&bob, at(3000), 200, 0), Err(MarketError::AlreadyEnded));
    assert_eq!(m.bid(&bob, at(1000) + 1, 200, 0), Ok(None));
    assert_eq!(m.bid(&s("carol.testnet"), at(2000) - 1, ENROLL_FEE, 0), Err(MarketError::RefundBelowFee));
    assert_eq!(m.get_auction(0).unwrap().winner, Some(bob));
}

#[test]
fn bid_on_unknown_auction_fails() {
    let mut m = market_with_auction(100, 1000, 2000);
    assert_eq!(m.bid(&s("bob.testnet"), at(1500), 200, 7), Err(MarketError::AuctionNotFound));
}

#[test]
fn scenario_b_winner_claims_token_once() {
    let mut m = market_with_auction(NEAR, 1000, 2000);
    let bob = s("bob.testnet");
    m.bid(&bob, at(1500), 2 * NEAR, 0).unwrap();
    assert_eq!(m.claim_nft(&bob, at(1500), 0), Err(MarketError::NotOver));
    assert_eq!(m.claim_nft(&bob, at(2000), 0), Err(MarketError::NotOver));
    assert_eq!(m.claim_nft(&s("carol.testnet"), at(2500), 0), Err(MarketError::NotWinner));
    assert_eq!(
        m.claim_nft(&bob, at(2500), 0),
        Ok(Effect::MoveToken { token_id: s("1"), from: s("market.testnet"), to: bob.clone() })
    );
    assert_eq!(m.claim_nft(&bob, at(2600), 0), Err(MarketError::NftAlreadyClaimed));
    assert_eq!(m.claim_back_nft(&s("alice.testnet"), at(2600), 0), Err(MarketError::NftSold));
    assert!(!m.is_auctioned(&s("1")));
    assert!(m.get_auction(0).unwrap().is_nft_claimed);
}

#[test]
fn scenario_c_unsold_token_goes_back_to_seller() {
    let mut m = market_with_auction(100, 1000, 2000);
    let alice = s("alice.testnet");
    assert_eq!(m.claim_nft(&alice, at(2500), 0), Err(MarketError::NotWinner));
    assert_eq!(m.claim_nft(&s("bob.testnet"), at(2500), 0), Err(MarketError::NotWinner));
    assert_eq!(m.claim_back_nft(&alice, at(2000), 0), Err(MarketError::NotOver));
    assert_eq!(m.claim_back_nft(&s("bob.testnet"), at(2500), 0), Err(MarketError::NotAuctionOwner));
    assert_eq!(
        m.claim_back_nft(&alice, at(2500), 0),
        Ok(Effect::MoveToken { token_id: s("1"), from: s("market.testnet"), to: alice.clone() })
    );
    assert_eq!(m.claim_back_nft(&alice, at(2600), 0), Err(MarketError::NftAlreadyClaimed));
    assert_eq!(m.claim_nft(&alice, at(2600), 0), Err(MarketError::NotWinner));
    assert!(!m.is_auctioned(&s("1")));
}

#[test]
fn token_can_be_auctioned_again_after_settlement() {
    let mut m = market_with_auction(100, 1000, 2000);
    let alice = s("alice.testnet");
    m.claim_back_nft(&alice, at(2500), 0).unwrap();
    let (a, _) = m
        .create_auction(&alice, Some(alice.clone()), CREATE_AUCTION_FEE, s("1"), 5, 3000, 4000)
        .unwrap();
    assert_eq!(a.auction_id, 1);
    assert!(m.is_auctioned(&s("1")));
}

#[test]
fn seller_collects_proceeds_once_after_end() {
    let mut m = market_with_auction(NEAR, 1000, 2000);
    let alice = s("alice.testnet");
    m.bid(&s("bob.testnet"), at(1500), 3 * NEAR, 0).unwrap();
    assert_eq!(m.claim_near(&alice, at(1900), 0), Err(MarketError::NotOver));
    assert_eq!(m.claim_near(&alice, at(2000), 0), Err(MarketError::NotOver));
    assert_eq!(m.claim_near(&s("bob.testnet"), at(2500), 0), Err(MarketError::NotAuctionOwner));
    assert_eq!(
        m.claim_near(&alice, at(2500), 0),
        Ok(Effect::PayNear { to: alice.clone(), amount: 3 * NEAR })
    );
    assert_eq!(m.claim_near(&alice, at(2600), 0), Err(MarketError::NearAlreadyClaimed));
    assert!(m.get_auction(0).unwrap().is_near_claimed);
    assert_eq!(m.claim_near(&alice, at(2600), 3), Err(MarketError::AuctionNotFound));
}

#[test]
fn unsold_auction_pays_start_price_to_seller() {
    let mut m = market_with_auction(100, 1000, 2000);
    let alice = s("alice.testnet");
    assert_eq!(m.claim_near(&alice, at(2500), 0), Ok(Effect::PayNear { to: alice, amount: 100 }));
}

#[test]
fn prices_never_fall_over_a_run_of_bids() {
    let mut m = market_with_auction(NEAR, 1000, 2000);
    let bids: [(&str, u64, u128); 5] = [
        ("bob.testnet", 1100, 2 * NEAR),
        ("carol.testnet", 1200, 2 * NEAR),
        ("carol.testnet", 1300, 5 * NEAR),
        ("bob.testnet", 1400, 4 * NEAR),
        ("dave.testnet", 1999, 6 * NEAR),
    ];
    let mut price = m.get_auction(0).unwrap().current_price;
    let mut refunds: Vec<(String, u128)> = Vec::new();
    for (who, t, amount) in bids {
        let r = m.bid(&s(who), at(t), amount, 0);
        let now = m.get_auction(0).unwrap().current_price;
        match r {
            Ok(refund) => {
                assert!(now > price);
                if let Some(Effect::PayNear { to, amount }) = refund {
                    refunds.push((to, amount));
                }
            }
            Err(_) => assert_eq!(now, price),
        }
        price = now;
    }
    assert_eq!(price, 6 * NEAR);
    assert_eq!(
        refunds,
        vec![(s("bob.testnet"), 2 * NEAR - ENROLL_FEE), (s("carol.testnet"), 5 * NEAR - ENROLL_FEE)]
    );
}
