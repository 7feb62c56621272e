//! The auction store and the engine's operations.
//!
//! Each operation is described by a spec function from the store's view and
//! the call's plain inputs to either an error or the new view together with
//! the effect the host must perform. The executable operation is proved to
//! follow it exactly, and to change nothing when it refuses.
use vstd::prelude::*;
use crate::auction::{
    AuctionView, Auction, Effect, EffectView, MarketError, opt_effect_view, opt_str_view, CREATE_AUCTION_FEE,
    ENROLL_FEE, MAX_SECONDS, MINT_FEE, NANOS_PER_SECOND,
};

verus! {

/// The mathematical value of an [`NFTMarket`].
pub struct MarketView {
    /// The account that deployed the marketplace.
    pub owner: Seq<char>,
    /// The marketplace's own account, which holds tokens in custody.
    pub account: Seq<char>,
    /// Every auction ever opened; an auction's id is its index.
    pub auctions: Seq<AuctionView>,
}

impl MarketView {
    /// Ids are indices, prices never fall below the start price and stay at it
    /// until a bid is taken, and no token is held by two live auctions.
    pub open spec fn wf(self) -> bool {
        &&& forall|i: int|
            0 <= i < self.auctions.len() ==> {
                &&& (#[trigger] self.auctions[i]).auction_id == i
                &&& self.auctions[i].current_price >= self.auctions[i].start_price
                &&& self.auctions[i].winner is None ==> self.auctions[i].current_price
                    == self.auctions[i].start_price
            }
        &&& forall|i: int, j: int|
            0 <= i < self.auctions.len() && 0 <= j < self.auctions.len() && i != j
                && (#[trigger] self.auctions[i]).is_live()
                && (#[trigger] self.auctions[j]).is_live() ==> self.auctions[i].auction_token
                != self.auctions[j].auction_token
    }

    /// Whether a live auction holds the token.
    pub open spec fn is_auctioned(self, token: Seq<char>) -> bool {
        exists|i: int|
            0 <= i < self.auctions.len() && (#[trigger] self.auctions[i]).is_live()
                && self.auctions[i].auction_token == token
    }

    pub open spec fn has_auction(self, id: u128) -> bool {
        id < self.auctions.len()
    }

    pub open spec fn auction(self, id: u128) -> AuctionView {
        self.auctions[id as int]
    }

    pub open spec fn with_auction(self, id: u128, a: AuctionView) -> MarketView {
        MarketView { auctions: self.auctions.update(id as int, a), ..self }
    }

    /// Ids of the auctions that `seller` opened, oldest first.
    pub open spec fn ids_of(self, seller: Seq<char>) -> Seq<u128> {
        ids_in(self.auctions, seller)
    }
}

pub open spec fn ids_in(auctions: Seq<AuctionView>, seller: Seq<char>) -> Seq<u128>
    decreases auctions.len(),
{
    if auctions.len() == 0 {
        Seq::empty()
    } else {
        let before = ids_in(auctions.drop_last(), seller);
        if auctions.last().owner == seller {
            before.push(auctions.last().auction_id)
        } else {
            before
        }
    }
}

/// Seconds to nanoseconds.
pub open spec fn nanos(seconds: u64) -> u64 {
    (seconds * NANOS_PER_SECOND) as u64
}

/// Opening an auction on `token` at the caller's request; `token_owner` is the
/// token's owner in the registry.
pub open spec fn create_spec(
    m: MarketView,
    caller: Seq<char>,
    token_owner: Option<Seq<char>>,
    deposit: u128,
    token: Seq<char>,
    start_price: u128,
    start_time: u64,
    end_time: u64,
) -> Result<(MarketView, AuctionView, EffectView), MarketError> {
    if token_owner is None {
        Err(MarketError::TokenNotFound)
    } else if token_owner->Some_0 != caller {
        Err(MarketError::NotTokenOwner)
    } else if m.is_auctioned(token) {
        Err(MarketError::AlreadyAuctioned)
    } else if deposit != CREATE_AUCTION_FEE {
        Err(MarketError::WrongAuctionFee)
    } else if end_time <= start_time {
        Err(MarketError::InvalidWindow)
    } else {
        let a = AuctionView {
            owner: caller,
            auction_id: m.auctions.len() as u128,
            auction_token: token,
            start_price,
            start_time: nanos(start_time),
            end_time: nanos(end_time),
            current_price: start_price,
            winner: None,
            is_near_claimed: false,
            is_nft_claimed: false,
        };
        Ok(
            (
                MarketView { auctions: m.auctions.push(a), ..m },
                a,
                EffectView::MoveToken { token_id: token, from: caller, to: m.account },
            ),
        )
    }
}

/// A bid of `deposit` on auction `id` at time `now`.
pub open spec fn bid_spec(m: MarketView, caller: Seq<char>, now: u64, deposit: u128, id: u128) -> Result<
    (MarketView, Option<EffectView>),
    MarketError,
> {
    if !m.has_auction(id) {
        Err(MarketError::AuctionNotFound)
    } else {
        let a = m.auction(id);
        if now <= a.start_time {
            Err(MarketError::NotStarted)
        } else if now >= a.end_time {
            Err(MarketError::AlreadyEnded)
        } else if deposit <= a.current_price {
            Err(MarketError::BidTooLow)
        } else if a.winner is Some && a.current_price < ENROLL_FEE {
            Err(MarketError::RefundBelowFee)
        } else {
            let refund = match a.winner {
                Some(w) => Some(
                    EffectView::PayNear { to: w, amount: (a.current_price - ENROLL_FEE) as u128 },
                ),
                None => None,
            };
            Ok(
                (
                    m.with_auction(
                        id,
                        AuctionView { winner: Some(caller), current_price: deposit, ..a },
                    ),
                    refund,
                ),
            )
        }
    }
}

/// The winner taking the token after the end.
pub open spec fn claim_nft_spec(m: MarketView, caller: Seq<char>, now: u64, id: u128) -> Result<
    (MarketView, EffectView),
    MarketError,
> {
    if !m.has_auction(id) {
        Err(MarketError::AuctionNotFound)
    } else {
        let a = m.auction(id);
        if !a.is_over_at(now) {
            Err(MarketError::NotOver)
        } else if a.winner != Some(caller) {
            Err(MarketError::NotWinner)
        } else if a.is_nft_claimed {
            Err(MarketError::NftAlreadyClaimed)
        } else {
            Ok(
                (
                    m.with_auction(id, AuctionView { is_nft_claimed: true, ..a }),
                    EffectView::MoveToken { token_id: a.auction_token, from: m.account, to: caller },
                ),
            )
        }
    }
}

/// The seller collecting the final price after the end. Whether anyone bid is
/// not asked: on an unsold auction the start price is paid out.
pub open spec fn claim_near_spec(m: MarketView, caller: Seq<char>, now: u64, id: u128) -> Result<
    (MarketView, EffectView),
    MarketError,
> {
    if !m.has_auction(id) {
        Err(MarketError::AuctionNotFound)
    } else {
        let a = m.auction(id);
        if caller != a.owner {
            Err(MarketError::NotAuctionOwner)
        } else if !a.is_over_at(now) {
            Err(MarketError::NotOver)
        } else if a.is_near_claimed {
            Err(MarketError::NearAlreadyClaimed)
        } else {
            Ok(
                (
                    m.with_auction(id, AuctionView { is_near_claimed: true, ..a }),
                    EffectView::PayNear { to: a.owner, amount: a.current_price },
                ),
            )
        }
    }
}

/// The seller taking back a token that drew no bid.
pub open spec fn claim_back_nft_spec(m: MarketView, caller: Seq<char>, now: u64, id: u128) -> Result<
    (MarketView, EffectView),
    MarketError,
> {
    if !m.has_auction(id) {
        Err(MarketError::AuctionNotFound)
    } else {
        let a = m.auction(id);
        if caller != a.owner {
            Err(MarketError::NotAuctionOwner)
        } else if !a.is_over_at(now) {
            Err(MarketError::NotOver)
        } else if a.winner is Some {
            Err(MarketError::NftSold)
        } else if a.is_nft_claimed {
            Err(MarketError::NftAlreadyClaimed)
        } else {
            Ok(
                (
                    m.with_auction(id, AuctionView { is_nft_claimed: true, ..a }),
                    EffectView::MoveToken { token_id: a.auction_token, from: m.account, to: a.owner },
                ),
            )
        }
    }
}

/// The marketplace: every auction, indexed by id.
pub struct NFTMarket {
    owner: String,
    account: String,
    auction_by_id: Vec<Auction>,
}

impl View for NFTMarket {
    type V = MarketView;

    closed spec fn view(&self) -> MarketView {
        MarketView {
            owner: self.owner@,
            account: self.account@,
            auctions: self.auction_by_id@.map_values(|a: Auction| a@),
        }
    }
}

impl NFTMarket {
    /// An empty marketplace deployed by `owner`, holding tokens under `account`.
    pub fn new(owner: String, account: String) -> (r: NFTMarket)
        ensures
            r@.owner == owner@,
            r@.account == account@,
            r@.auctions.len() == 0,
            r@.wf(),
    {
        let r = NFTMarket { owner, account, auction_by_id: Vec::new() };
        proof {
            assert(r@.auctions =~= Seq::<AuctionView>::empty());
        }
        r
    }

    /// Admits a mint request when exactly the mint fee is attached.
    pub fn mint(&self, deposit: u128) -> (r: Result<(), MarketError>)
        ensures
            r is Ok <==> deposit == MINT_FEE,
            r is Err ==> r == Err::<(), MarketError>(MarketError::WrongMintFee),
    {
        if deposit == MINT_FEE {
            Ok(())
        } else {
            Err(MarketError::WrongMintFee)
        }
    }

    /// How many auctions have been opened; also the id the next one gets.
    pub fn total_auctions(&self) -> (r: u128)
        ensures
            r == self@.auctions.len(),
    {
        self.auction_by_id.len() as u128
    }

    /// The auction with this id.
    pub fn get_auction(&self, auction_id: u128) -> (r: Result<Auction, MarketError>)
        ensures
            self@.has_auction(auction_id) ==> r is Ok && r->Ok_0@ == self@.auction(auction_id),
            !self@.has_auction(auction_id) ==> r == Err::<Auction, MarketError>(
                MarketError::AuctionNotFound,
            ),
    {
        if auction_id >= self.auction_by_id.len() as u128 {
            return Err(MarketError::AuctionNotFound);
        }
        Ok(self.auction_by_id[auction_id as usize].copy())
    }

    /// Ids of the auctions that `seller` opened, oldest first.
    pub fn auction_ids_of(&self, seller: &String) -> (r: Vec<u128>)
        ensures
            r@ == self@.ids_of(seller@),
    {
        let n = self.auction_by_id.len();
        let mut ids: Vec<u128> = Vec::new();
        let mut i: usize = 0;
        while i < n
            invariant
                n == self.auction_by_id@.len(),
                i <= n,
                ids@ == ids_in(self@.auctions.take(i as int), seller@),
            decreases n - i,
        {
            let a = &self.auction_by_id[i];
            proof {
                assert(self@.auctions.take(i + 1).drop_last() =~= self@.auctions.take(i as int));
                assert(self@.auctions.take(i + 1).last() == a@);
            }
            if a.owner == *seller {
                ids.push(a.auction_id);
            }
            i = i + 1;
        }
        proof {
            assert(self@.auctions.take(n as int) =~= self@.auctions);
        }
        ids
    }

    /// Whether a live auction holds the token.
    pub fn is_auctioned(&self, token: &String) -> (r: bool)
        ensures
            r == self@.is_auctioned(token@),
    {
        let n = self.auction_by_id.len();
        let mut i: usize = 0;
        while i < n
            invariant
                n == self.auction_by_id@.len(),
                i <= n,
                forall|k: int|
                    0 <= k < i ==> !((#[trigger] self@.auctions[k]).is_live()
                        && self@.auctions[k].auction_token == token@),
            decreases n - i,
        {
            let a = &self.auction_by_id[i];
            if !a.is_nft_claimed && a.auction_token == *token {
                assert(self@.auctions[i as int] == a@);
                return true;
            }
            i = i + 1;
        }
        false
    }
    /// Opens an auction on `auction_token` for `caller`, who attached
    /// `deposit`; `token_owner` is the token's owner in the registry. Times are
    /// in seconds. On success the token must move into the marketplace's
    /// custody.
    pub fn create_auction(
        &mut self,
        caller: &String,
        token_owner: Option<String>,
        deposit: u128,
        auction_token: String,
        start_price: u128,
        start_time: u64,
        end_time: u64,
    ) -> (r: Result<(Auction, Effect), MarketError>)
        requires
            old(self)@.wf(),
            start_time <= MAX_SECONDS,
            end_time <= MAX_SECONDS,
        ensures
            final(self)@.wf(),
            match create_spec(
                old(self)@,
                caller@,
                opt_str_view(token_owner),
                deposit,
                auction_token@,
                start_price,
                start_time,
                end_time,
            ) {
                Ok((m, a, e)) => r is Ok && r->Ok_0.0@ == a && r->Ok_0.1@ == e && final(self)@ == m,
                Err(err) => r == Err::<(Auction, Effect), MarketError>(err) && final(self)@ == old(
                    self,
                )@,
            },
    {
        let owner = match token_owner {
            None => return Err(MarketError::TokenNotFound),
            Some(o) => o,
        };
        if owner != *caller {
            return Err(MarketError::NotTokenOwner);
        }
        if self.is_auctioned(&auction_token) {
            return Err(MarketError::AlreadyAuctioned);
        }
        if deposit != CREATE_AUCTION_FEE {
            return Err(MarketError::WrongAuctionFee);
        }
        if end_time <= start_time {
            return Err(MarketError::InvalidWindow);
        }
        let auction = Auction {
            owner: caller.clone(),
            auction_id: self.auction_by_id.len() as u128,
            auction_token: auction_token.clone(),
            start_price,
            start_time: start_time * NANOS_PER_SECOND,
            end_time: end_time * NANOS_PER_SECOND,
            current_price: start_price,
            winner: None,
            is_near_claimed: false,
            is_nft_claimed: false,
        };
        let effect = Effect::MoveToken {
            token_id: auction_token,
            from: caller.clone(),
            to: self.account.clone(),
        };
        let created = auction.copy();
        self.auction_by_id.push(auction);
        proof {
            assert(self@.auctions =~= old(self)@.auctions.push(created@));
        }
        Ok((created, effect))
    }

    /// A bid of `deposit` by `caller` at time `now` (nanoseconds). On success
    /// the displaced winner, if any, must be refunded as the effect says.
    pub fn bid(&mut self, caller: &String, now: u64, deposit: u128, auction_id: u128) -> (r: Result<
        Option<Effect>,
        MarketError,
    >)
        requires
            old(self)@.wf(),
        ensures
            final(self)@.wf(),
            match bid_spec(old(self)@, caller@, now, deposit, auction_id) {
                Ok((m, e)) => r is Ok && opt_effect_view(r->Ok_0) == e && final(self)@ == m,
                Err(err) => r == Err::<Option<Effect>, MarketError>(err) && final(self)@ == old(
                    self,
                )@,
            },
    {
        if auction_id >= self.auction_by_id.len() as u128 {
            return Err(MarketError::AuctionNotFound);
        }
        let i = auction_id as usize;
        let mut auction = self.auction_by_id[i].copy();
        if now <= auction.start_time {
            return Err(MarketError::NotStarted);
        }
        if now >= auction.end_time {
            return Err(MarketError::AlreadyEnded);
        }
        if deposit <= auction.current_price {
            return Err(MarketError::BidTooLow);
        }
        let refund = match &auction.winner {
            Some(w) => {
                if auction.current_price < ENROLL_FEE {
                    return Err(MarketError::RefundBelowFee);
                }
                Some(Effect::PayNear { to: w.clone(), amount: auction.current_price - ENROLL_FEE })
            },
            None => None,
        };
        auction.winner = Some(caller.clone());
        auction.current_price = deposit;
        let ghost updated = auction@;
        self.auction_by_id.set(i, auction);
        proof {
            assert(self@.auctions =~= old(self)@.auctions.update(i as int, updated));
        }
        Ok(refund)
    }

    /// The winner `caller` claiming the token at time `now` (nanoseconds). On
    /// success the token must move from custody to the winner.
    pub fn claim_nft(&mut self, caller: &String, now: u64, auction_id: u128) -> (r: Result<
        Effect,
        MarketError,
    >)
        requires
            old(self)@.wf(),
        ensures
            final(self)@.wf(),
            match claim_nft_spec(old(self)@, caller@, now, auction_id) {
                Ok((m, e)) => r is Ok && r->Ok_0@ == e && final(self)@ == m,
                Err(err) => r == Err::<Effect, MarketError>(err) && final(self)@ == old(self)@,
            },
    {
        if auction_id >= self.auction_by_id.len() as u128 {
            return Err(MarketError::AuctionNotFound);
        }
        let i = auction_id as usize;
        let mut auction = self.auction_by_id[i].copy();
        if now <= auction.end_time {
            return Err(MarketError::NotOver);
        }
        let is_winner = match &auction.winner {
            Some(w) => *w == *caller,
            None => false,
        };
        if !is_winner {
            return Err(MarketError::NotWinner);
        }
        if auction.is_nft_claimed {
            return Err(MarketError::NftAlreadyClaimed);
        }
        let effect = Effect::MoveToken {
            token_id: auction.auction_token.clone(),
            from: self.account.clone(),
            to: caller.clone(),
        };
        auction.is_nft_claimed = true;
        let ghost updated = auction@;
        self.auction_by_id.set(i, auction);
        proof {
            assert(self@.auctions =~= old(self)@.auctions.update(i as int, updated));
        }
        Ok(effect)
    }

    /// The seller `caller` collecting the final price at time `now`
    /// (nanoseconds). On success the price must be paid to the seller.
    pub fn claim_near(&mut self, caller: &String, now: u64, auction_id: u128) -> (r: Result<
        Effect,
        MarketError,
    >)
        requires
            old(self)@.wf(),
        ensures
            final(self)@.wf(),
            match claim_near_spec(old(self)@, caller@, now, auction_id) {
                Ok((m, e)) => r is Ok && r->Ok_0@ == e && final(self)@ == m,
                Err(err) => r == Err::<Effect, MarketError>(err) && final(self)@ == old(self)@,
            },
    {
        if auction_id >= self.auction_by_id.len() as u128 {
            return Err(MarketError::AuctionNotFound);
        }
        let i = auction_id as usize;
        let mut auction = self.auction_by_id[i].copy();
        if *caller != auction.owner {
            return Err(MarketError::NotAuctionOwner);
        }
        if now <= auction.end_time {
            return Err(MarketError::NotOver);
        }
        if auction.is_near_claimed {
            return Err(MarketError::NearAlreadyClaimed);
        }
        let effect = Effect::PayNear { to: auction.owner.clone(), amount: auction.current_price };
        auction.is_near_claimed = true;
        let ghost updated = auction@;
        self.auction_by_id.set(i, auction);
        proof {
            assert(self@.auctions =~= old(self)@.auctions.update(i as int, updated));
        }
        Ok(effect)
    }

    /// The seller `caller` taking back an unsold token at time `now`
    /// (nanoseconds). On success the token must move from custody back to the
    /// seller.
    pub fn claim_back_nft(&mut self, caller: &String, now: u64, auction_id: u128) -> (r: Result<
        Effect,
        MarketError,
    >)
        requires
            old(self)@.wf(),
        ensures
            final(self)@.wf(),
            match claim_back_nft_spec(old(self)@, caller@, now, auction_id) {
                Ok((m, e)) => r is Ok && r->Ok_0@ == e && final(self)@ == m,
                Err(err) => r == Err::<Effect, MarketError>(err) && final(self)@ == old(self)@,
            },
    {
        if auction_id >= self.auction_by_id.len() as u128 {
            return Err(MarketError::AuctionNotFound);
        }
        let i = auction_id as usize;
        let mut auction = self.auction_by_id[i].copy();
        if *caller != auction.owner {
            return Err(MarketError::NotAuctionOwner);
        }
        if now <= auction.end_time {
            return Err(MarketError::NotOver);
        }
        if auction.winner.is_some() {
            return Err(MarketError::NftSold);
        }
        if auction.is_nft_claimed {
            return Err(MarketError::NftAlreadyClaimed);
        }
        let effect = Effect::MoveToken {
            token_id: auction.auction_token.clone(),
            from: self.account.clone(),
            to: auction.owner.clone(),
        };
        auction.is_nft_claimed = true;
        let ghost updated = auction@;
        self.auction_by_id.set(i, auction);
        proof {
            assert(self@.auctions =~= old(self)@.auctions.update(i as int, updated));
        }
        Ok(effect)
    }
}

} // verus!
