//! Properties that relate several operations, proved over the spec functions
//! that the operations' own contracts follow.
use vstd::prelude::*;
use crate::auction::{EffectView, ENROLL_FEE};
use crate::market::{
    bid_spec, claim_back_nft_spec, claim_near_spec, claim_nft_spec, create_spec, MarketView,
};

verus! {

/// One bid as a caller makes it.
pub struct BidCall {
    pub caller: Seq<char>,
    pub now: u64,
    pub deposit: u128,
}

/// The store after the bids are made on auction `id` in order; a refused bid
/// leaves the store as it was.
pub open spec fn bids_applied(m: MarketView, id: u128, bids: Seq<BidCall>) -> MarketView
    decreases bids.len(),
{
    if bids.len() == 0 {
        m
    } else {
        let before = bids_applied(m, id, bids.drop_last());
        let b = bids.last();
        match bid_spec(before, b.caller, b.now, b.deposit, id) {
            Ok((after, _)) => after,
            Err(_) => before,
        }
    }
}

/// A successful auction opening locks the token in a live auction and moves
/// it from the seller into the marketplace's custody.
pub proof fn lemma_create_locks_token(
    m: MarketView,
    caller: Seq<char>,
    token_owner: Option<Seq<char>>,
    deposit: u128,
    token: Seq<char>,
    start_price: u128,
    start_time: u64,
    end_time: u64,
)
    requires
        m.wf(),
        create_spec(m, caller, token_owner, deposit, token, start_price, start_time, end_time) is Ok,
    ensures
        ({
            let (after, a, e) = create_spec(
                m,
                caller,
                token_owner,
                deposit,
                token,
                start_price,
                start_time,
                end_time,
            )->Ok_0;
            &&& after.is_auctioned(token)
            &&& e == EffectView::MoveToken { token_id: token, from: caller, to: m.account }
            &&& a.auction_token == token
            &&& a.owner == caller
            &&& a.winner is None
            &&& a.current_price == start_price
        }),
{
    let (after, a, e) = create_spec(
        m,
        caller,
        token_owner,
        deposit,
        token,
        start_price,
        start_time,
        end_time,
    )->Ok_0;
    let i = m.auctions.len() as int;
    assert(after.auctions[i] == a);
}

/// An accepted bid sets the price to the bid, which is strictly above the old
/// price, makes the caller the winner, and refunds the displaced winner, if
/// any, their bid less the enrolment fee; every other auction is untouched.
pub proof fn lemma_bid_step(m: MarketView, caller: Seq<char>, now: u64, deposit: u128, id: u128)
    requires
        bid_spec(m, caller, now, deposit, id) is Ok,
    ensures
        ({
            let (after, refund) = bid_spec(m, caller, now, deposit, id)->Ok_0;
            let a = m.auction(id);
            &&& m.has_auction(id)
            &&& after.auctions.len() == m.auctions.len()
            &&& after.auction(id).current_price == deposit
            &&& deposit > a.current_price
            &&& after.auction(id).winner == Some(caller)
            &&& refund == match a.winner {
                Some(w) => Some(
                    EffectView::PayNear { to: w, amount: (a.current_price - ENROLL_FEE) as u128 },
                ),
                None => None::<EffectView>,
            }
            &&& a.winner is Some ==> a.current_price >= ENROLL_FEE
            &&& forall|j: int|
                0 <= j < m.auctions.len() && j != id ==> after.auctions[j] == m.auctions[j]
        }),
{
}

/// Over any run of bids on one auction the price never falls.
pub proof fn lemma_bids_never_lower_price(m: MarketView, id: u128, bids: Seq<BidCall>)
    requires
        m.has_auction(id),
    ensures
        bids_applied(m, id, bids).has_auction(id),
        bids_applied(m, id, bids).auctions.len() == m.auctions.len(),
        m.auction(id).current_price <= bids_applied(m, id, bids).auction(id).current_price,
    decreases bids.len(),
{
    if bids.len() > 0 {
        lemma_bids_never_lower_price(m, id, bids.drop_last());
        let before = bids_applied(m, id, bids.drop_last());
        let b = bids.last();
        if bid_spec(before, b.caller, b.now, b.deposit, id) is Ok {
            lemma_bid_step(before, b.caller, b.now, b.deposit, id);
        }
    }
}

/// No bid is taken at or before the start time, nor at or after the end time.
pub proof fn lemma_no_bid_outside_window(
    m: MarketView,
    caller: Seq<char>,
    now: u64,
    deposit: u128,
    id: u128,
)
    requires
        m.has_auction(id),
        !m.auction(id).accepts_bids_at(now),
    ensures
        bid_spec(m, caller, now, deposit, id) is Err,
{
}

/// The token side of an auction settles at most once: on one state the winner's
/// claim and the seller's reclaim cannot both succeed, the winner's claim needs
/// a winner and the reclaim needs none, and after either has succeeded both fail.
pub proof fn lemma_token_settles_once(
    m: MarketView,
    c1: Seq<char>,
    t1: u64,
    c2: Seq<char>,
    t2: u64,
    id: u128,
)
    ensures
        claim_nft_spec(m, c1, t1, id) is Ok ==> m.auction(id).winner is Some,
        claim_back_nft_spec(m, c1, t1, id) is Ok ==> m.auction(id).winner is None,
        !(claim_nft_spec(m, c1, t1, id) is Ok && claim_back_nft_spec(m, c2, t2, id) is Ok),
        claim_nft_spec(m, c1, t1, id) is Ok ==> ({
            let after = claim_nft_spec(m, c1, t1, id)->Ok_0.0;
            &&& claim_nft_spec(after, c2, t2, id) is Err
            &&& claim_back_nft_spec(after, c2, t2, id) is Err
        }),
        claim_back_nft_spec(m, c1, t1, id) is Ok ==> ({
            let after = claim_back_nft_spec(m, c1, t1, id)->Ok_0.0;
            &&& claim_nft_spec(after, c2, t2, id) is Err
            &&& claim_back_nft_spec(after, c2, t2, id) is Err
        }),
{
}

/// Once an auction is over and its token is still held, the settlement that
/// fits its outcome is open: the winner can claim the token, or, when nobody
/// bid, the seller can take it back.
pub proof fn lemma_token_settlement_open(m: MarketView, now: u64, id: u128)
    requires
        m.has_auction(id),
        m.auction(id).is_over_at(now),
        m.auction(id).is_live(),
    ensures
        m.auction(id).winner is Some ==> claim_nft_spec(m, m.auction(id).winner->Some_0, now, id) is Ok,
        m.auction(id).winner is None ==> claim_back_nft_spec(m, m.auction(id).owner, now, id) is Ok,
{
}

/// Once an auction is over, what decides its token side stays fixed: no bid is
/// taken, and collecting the proceeds leaves the winner and the token's state
/// as they were.
pub proof fn lemma_settlement_fixed_after_end(
    m: MarketView,
    caller: Seq<char>,
    now: u64,
    deposit: u128,
    id: u128,
)
    requires
        m.has_auction(id),
        m.auction(id).is_over_at(now),
    ensures
        bid_spec(m, caller, now, deposit, id) is Err,
        claim_near_spec(m, caller, now, id) is Ok ==> ({
            let after = claim_near_spec(m, caller, now, id)->Ok_0.0;
            &&& after.auction(id).winner == m.auction(id).winner
            &&& after.auction(id).is_nft_claimed == m.auction(id).is_nft_claimed
        }),
{
}

/// The proceeds are never paid before the end, are paid only to the seller and
/// only the final price, and are paid at most once.
pub proof fn lemma_proceeds_paid_once(
    m: MarketView,
    c1: Seq<char>,
    t1: u64,
    c2: Seq<char>,
    t2: u64,
    id: u128,
)
    ensures
        m.has_auction(id) && !m.auction(id).is_over_at(t1) ==> claim_near_spec(m, c1, t1, id) is Err,
        claim_near_spec(m, c1, t1, id) is Ok ==> ({
            let (after, e) = claim_near_spec(m, c1, t1, id)->Ok_0;
            &&& c1 == m.auction(id).owner
            &&& e == EffectView::PayNear {
                to: m.auction(id).owner,
                amount: m.auction(id).current_price,
            }
            &&& claim_near_spec(after, c2, t2, id) is Err
        }),
{
}

} // verus!
