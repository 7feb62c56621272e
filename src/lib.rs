//! Timed ascending-price auctions over tokens held in custody.
//!
//! The engine decides; the host performs. Each operation takes the caller,
//! the current time and the attached deposit as plain values, updates the
//! auction store, and hands back the token move or the payment that the host
//! must carry out in the same atomic call.
pub mod auction;
pub mod laws;
pub mod market;

pub use auction::{
    Auction, AuctionView, Effect, EffectView, MarketError, CREATE_AUCTION_FEE, ENROLL_FEE,
    MAX_SECONDS, MINT_FEE, NANOS_PER_SECOND,
};
pub use market::{MarketView, NFTMarket};
