//! The auction record, the effects the engine asks the host to perform, and
//! the errors it reports.
use vstd::prelude::*;

verus! {

/// Fee that must be attached to mint a token (0.1 NEAR in yoctoNEAR).
pub const MINT_FEE: u128 = 100_000_000_000_000_000_000_000;

/// Fee that must be attached to open an auction (1 NEAR in yoctoNEAR).
pub const CREATE_AUCTION_FEE: u128 = 1_000_000_000_000_000_000_000_000;

/// Part of a displaced bid that the marketplace keeps (0.1 NEAR in yoctoNEAR).
pub const ENROLL_FEE: u128 = 100_000_000_000_000_000_000_000;

/// Auction times are given in seconds and stored in nanoseconds.
pub const NANOS_PER_SECOND: u64 = 1_000_000_000;

/// Largest time in seconds whose nanosecond value fits in a `u64`.
pub const MAX_SECONDS: u64 = 18_446_744_073;

/// Why an operation was refused. A refused operation changes nothing.
#[derive(Debug, Clone, Copy, PartialEq, Eq, Structural)]
pub enum MarketError {
    /// The attached deposit is not the mint fee.
    WrongMintFee,
    /// The token has no owner in the registry.
    TokenNotFound,
    /// The caller does not own the token.
    NotTokenOwner,
    /// The token is already locked in a live auction.
    AlreadyAuctioned,
    /// The attached deposit is not the auction fee.
    WrongAuctionFee,
    /// The end time is not after the start time.
    InvalidWindow,
    /// No auction has this id.
    AuctionNotFound,
    /// The auction has not started yet.
    NotStarted,
    /// The auction's bidding window has closed.
    AlreadyEnded,
    /// The bid is not above the current price.
    BidTooLow,
    /// The current price is below the enrolment fee, so no refund can be made.
    RefundBelowFee,
    /// The auction is not over yet.
    NotOver,
    /// The caller is not the auction's winner.
    NotWinner,
    /// The caller is not the seller who opened the auction.
    NotAuctionOwner,
    /// The token side of the auction has already been settled.
    NftAlreadyClaimed,
    /// The proceeds have already been paid out.
    NearAlreadyClaimed,
    /// Someone has bid, so the token is not the seller's to take back.
    NftSold,
}

/// One auction: a token in custody, a time window and the best bid so far.
#[derive(Debug)]
pub struct Auction {
    pub owner: String,
    pub auction_id: u128,
    pub auction_token: String,
    pub start_price: u128,
    /// Nanoseconds.
    pub start_time: u64,
    /// Nanoseconds.
    pub end_time: u64,
    pub current_price: u128,
    /// `None` until the first bid is accepted.
    pub winner: Option<String>,
    pub is_near_claimed: bool,
    pub is_nft_claimed: bool,
}

/// The mathematical value of an [`Auction`].
pub struct AuctionView {
    pub owner: Seq<char>,
    pub auction_id: u128,
    pub auction_token: Seq<char>,
    pub start_price: u128,
    pub start_time: u64,
    pub end_time: u64,
    pub current_price: u128,
    pub winner: Option<Seq<char>>,
    pub is_near_claimed: bool,
    pub is_nft_claimed: bool,
}

pub open spec fn opt_str_view(o: Option<String>) -> Option<Seq<char>> {
    match o {
        Some(s) => Some(s@),
        None => None,
    }
}

impl View for Auction {
    type V = AuctionView;

    open spec fn view(&self) -> AuctionView {
        AuctionView {
            owner: self.owner@,
            auction_id: self.auction_id,
            auction_token: self.auction_token@,
            start_price: self.start_price,
            start_time: self.start_time,
            end_time: self.end_time,
            current_price: self.current_price,
            winner: opt_str_view(self.winner),
            is_near_claimed: self.is_near_claimed,
            is_nft_claimed: self.is_nft_claimed,
        }
    }
}

impl AuctionView {
    /// Whether the token is still held for this auction.
    pub open spec fn is_live(self) -> bool {
        !self.is_nft_claimed
    }

    /// Bids are taken strictly inside the window.
    pub open spec fn accepts_bids_at(self, now: u64) -> bool {
        self.start_time < now && now < self.end_time
    }

    /// Settlement is possible strictly after the end time.
    pub open spec fn is_over_at(self, now: u64) -> bool {
        now > self.end_time
    }
}

impl Auction {
    /// A field-by-field copy.
    pub fn copy(&self) -> (r: Auction)
        ensures
            r@ == self@,
    {
        let winner = match &self.winner {
            Some(w) => Some(w.clone()),
            None => None,
        };
        Auction {
            owner: self.owner.clone(),
            auction_id: self.auction_id,
            auction_token: self.auction_token.clone(),
            start_price: self.start_price,
            start_time: self.start_time,
            end_time: self.end_time,
            current_price: self.current_price,
            winner,
            is_near_claimed: self.is_near_claimed,
            is_nft_claimed: self.is_nft_claimed,
        }
    }
}

/// What the host must perform when an operation succeeds.
#[derive(Debug, PartialEq, Eq)]
pub enum Effect {
    /// Send `amount` yoctoNEAR to `to`.
    PayNear { to: String, amount: u128 },
    /// Move `token_id` in the registry from `from` to `to`.
    MoveToken { token_id: String, from: String, to: String },
}

/// The mathematical value of an [`Effect`].
pub enum EffectView {
    PayNear { to: Seq<char>, amount: u128 },
    MoveToken { token_id: Seq<char>, from: Seq<char>, to: Seq<char> },
}

impl View for Effect {
    type V = EffectView;

    open spec fn view(&self) -> EffectView {
        match self {
            Effect::PayNear { to, amount } => EffectView::PayNear { to: to@, amount: *amount },
            Effect::MoveToken { token_id, from, to } => EffectView::MoveToken {
                token_id: token_id@,
                from: from@,
                to: to@,
            },
        }
    }
}

pub open spec fn opt_effect_view(o: Option<Effect>) -> Option<EffectView> {
    match o {
        Some(e) => Some(e@),
        None => None,
    }
}

} // verus!
