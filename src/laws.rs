use vstd::prelude::*;
use crate::account::BoyncAuction2;
use crate::address::{Address, zero_key};
use crate::errors::AuctionError;
use crate::processor::{after_bid, bid_error, claim_error, window_error};
use crate::rules::{escalated_bid, TIME_EXTENSION_MS};

verus! {

/// The record after the bids `bids` (bidder, time) were applied in order.
pub open spec fn run_bids(s: BoyncAuction2, bids: Seq<(Address, i64)>) -> BoyncAuction2
    decreases bids.len(),
{
    if bids.len() == 0 {
        s
    } else {
        after_bid(run_bids(s, bids.drop_last()), bids.last().0, bids.last().1)
    }
}

/// Whether each bid of `bids` passes every check on the record that the
/// earlier ones left.
pub open spec fn all_accepted(s: BoyncAuction2, bids: Seq<(Address, i64)>) -> bool {
    forall|i: int|
        0 <= i < bids.len() ==> #[trigger] bid_error(run_bids(s, bids.take(i)), bids[i].0@, bids[i].1) is None
}

/// One accepted bid at price P sets the asked price to floor(1.05 * P), or to
/// the largest amount when that does not fit; it never lowers the price, and
/// raises it strictly from a price of at least 20 when the result fits.
pub proof fn bid_raises_price(s: BoyncAuction2, bidder: Address, now: i64)
    requires
        bid_error(s, bidder@, now) is None,
    ensures
        s.next_bid * 105 / 100 <= u64::MAX ==> after_bid(s, bidder, now).next_bid == s.next_bid * 105 / 100,
        after_bid(s, bidder, now).next_bid >= s.next_bid,
        20 <= s.next_bid && s.next_bid * 105 / 100 <= u64::MAX ==> after_bid(s, bidder, now).next_bid
            > s.next_bid,
{
    let p = s.next_bid;
    assert(p * 105 / 100 >= p) by (nonlinear_arith)
        requires
            p >= 0,
    ;
    assert(20 <= p ==> p * 105 / 100 > p) by (nonlinear_arith);
}

proof fn lemma_run_bids_step(s: BoyncAuction2, bids: Seq<(Address, i64)>, i: int)
    requires
        0 <= i < bids.len(),
    ensures
        run_bids(s, bids.take(i + 1)) == after_bid(run_bids(s, bids.take(i)), bids[i].0, bids[i].1),
{
    assert(bids.take(i + 1).drop_last() =~= bids.take(i));
    assert(bids.take(i + 1).last() == bids[i]);
}

proof fn lemma_price_never_falls(s: BoyncAuction2, bids: Seq<(Address, i64)>, i: int, j: int)
    requires
        0 <= i <= j <= bids.len(),
    ensures
        run_bids(s, bids.take(i)).next_bid <= run_bids(s, bids.take(j)).next_bid,
    decreases j - i,
{
    if i < j {
        lemma_price_never_falls(s, bids, i, j - 1);
        lemma_run_bids_step(s, bids, j - 1);
        let p = run_bids(s, bids.take(j - 1)).next_bid;
        assert(p * 105 / 100 >= p) by (nonlinear_arith)
            requires
                p >= 0,
        ;
    }
}

/// Along any sequence of accepted bids opening at a price of at least 20, the
/// asked price rises strictly with every bid, as long as it stays below the
/// largest amount.
pub proof fn price_ladder_is_monotonic(s: BoyncAuction2, bids: Seq<(Address, i64)>)
    requires
        all_accepted(s, bids),
        20 <= s.next_bid,
        run_bids(s, bids).next_bid < u64::MAX,
    ensures
        forall|i: int|
            0 <= i < bids.len() ==> #[trigger] run_bids(s, bids.take(i + 1)).next_bid > run_bids(
                s,
                bids.take(i),
            ).next_bid,
{
    assert forall|i: int| 0 <= i < bids.len() implies #[trigger] run_bids(s, bids.take(i + 1)).next_bid
        > run_bids(s, bids.take(i)).next_bid by {
        lemma_price_never_falls(s, bids, 0, i);
        lemma_price_never_falls(s, bids, i + 1, bids.len() as int);
        lemma_run_bids_step(s, bids, i);
        assert(bids.take(0) =~= Seq::<(Address, i64)>::empty());
        assert(bids.take(bids.len() as int) =~= bids);
        let p = run_bids(s, bids.take(i)).next_bid;
        assert(20 <= p ==> p * 105 / 100 > p) by (nonlinear_arith);
        assert(escalated_bid(p) < u64::MAX);
    }
}

/// An accepted bid never moves the end of the window earlier; when no
/// saturation occurs, it moves it by exactly the extension precisely when the
/// bid lands at or before the old end.
pub proof fn bid_extends_only(s: BoyncAuction2, bidder: Address, now: i64)
    requires
        bid_error(s, bidder@, now) is None,
    ensures
        after_bid(s, bidder, now).end_auction_at >= s.end_auction_at,
        s.end_auction_at <= i64::MAX - TIME_EXTENSION_MS ==> (after_bid(s, bidder, now).end_auction_at
            == s.end_auction_at + TIME_EXTENSION_MS <==> now <= s.end_auction_at),
{
}

/// After a successful claim no later claim succeeds, whoever makes it; one made
/// at the same or a later time fails with `AuctionClaimed`.
pub proof fn claim_succeeds_once(s: BoyncAuction2, first: Seq<u8>, second: Seq<u8>, t1: i64, t2: i64)
    requires
        claim_error(s, first, t1) is None,
    ensures
        claim_error(BoyncAuction2 { claimed: 1, ..s }, second, t2) is Some,
        t1 <= t2 ==> claim_error(BoyncAuction2 { claimed: 1, ..s }, second, t2) == Some(
            AuctionError::AuctionClaimed,
        ),
{
}

/// A bid by the seller always fails; when the window is open and the asset
/// unclaimed, it fails with `AuctionAuthorityBid`.
pub proof fn seller_cannot_bid(s: BoyncAuction2, now: i64)
    ensures
        bid_error(s, s.authority@, now) is Some,
        window_error(s, now) is None && s.claimed == 0 ==> bid_error(s, s.authority@, now) == Some(
            AuctionError::AuctionAuthorityBid,
        ),
{
}

/// Once a bid by `bidder` was accepted, only `bidder` can claim.
pub proof fn only_winner_claims(s: BoyncAuction2, bidder: Address, bid_at: i64, claimant: Seq<u8>, now: i64)
    requires
        bid_error(s, bidder@, bid_at) is None,
        bidder@ != zero_key(),
    ensures
        claim_error(after_bid(s, bidder, bid_at), claimant, now) is None ==> claimant == bidder@,
{
}

/// With no bid accepted, only the seller can claim.
pub proof fn only_seller_claims_unsold(s: BoyncAuction2, claimant: Seq<u8>, now: i64)
    requires
        s.last_bidder@ == zero_key(),
    ensures
        claim_error(s, claimant, now) is None ==> claimant == s.authority@,
{
}

} // verus!
