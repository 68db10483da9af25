use vstd::prelude::*;
use crate::account::BoyncAuction2;
use crate::account::BoyncUserBid;
use crate::address::{Address, zero_key};
use crate::errors::AuctionError;
use crate::pda::{SeedTag, derivation_seeds, seeds_for, seeds_view};
use crate::rules::{
    authority_share, escalated_bid, extend_end, extended_end, next_bid_price, seller_share,
    starting_price, starting_price_for,
};

verus! {

/// A movement of native funds that an operation asks the host to perform.
#[derive(Debug)]
pub struct NativeTransfer {
    /// How much moves.
    pub amount: u64,
    /// The seeds (bump last) with which the program signs, empty when it does not.
    pub signer_seeds: Vec<Vec<u8>>,
}

/// A movement of the auctioned asset that an operation asks the custody adapter
/// to perform.
#[derive(Debug)]
pub struct AssetMove {
    /// How many units move.
    pub amount: u64,
    /// The seeds (bump last) with which the program signs, empty when it does not.
    pub signer_seeds: Vec<Vec<u8>>,
}

/// What an accepted bid asks for: the payment into the chest and the receipt.
#[derive(Debug)]
pub struct BidOutcome {
    /// From the bidder to the bidders' chest.
    pub payment: NativeTransfer,
    /// The receipt to store.
    pub receipt: BoyncUserBid,
}

/// The two payouts of an early close.
#[derive(Debug)]
pub struct EndOutcome {
    /// From the chest to the seller.
    pub to_authority: NativeTransfer,
    /// From the chest to the destination that the seller named.
    pub to_treasury: NativeTransfer,
}

/// Derivation seeds followed by the one-byte bump: what signs for a derived account.
pub open spec fn signing_seeds(tag: SeedTag, owner: Seq<u8>, asset: Option<Seq<u8>>, salt: i64, bump: u8) -> Seq<Seq<u8>> {
    derivation_seeds(tag, owner, asset, salt).push(seq![bump])
}

/// The seeds that sign for the auction record `s`.
pub open spec fn record_signer(s: BoyncAuction2) -> Seq<Seq<u8>> {
    signing_seeds(SeedTag::Auction, s.authority@, Some(s.treasury_mint@), s.id, s.bump)
}

/// The seeds that sign for the bidders' chest of `s`, with the chest's bump.
pub open spec fn chest_signer(s: BoyncAuction2, bump: u8) -> Seq<Seq<u8>> {
    signing_seeds(SeedTag::Wallet, s.authority@, None, s.id, bump)
}

/// The error of a time check against the window of `s`, if any.
pub open spec fn window_error(s: BoyncAuction2, now: i64) -> Option<AuctionError> {
    if now < s.start_auction_at {
        Some(AuctionError::AuctionNotStarted)
    } else if now > s.end_auction_at {
        Some(AuctionError::AuctionEnded)
    } else {
        None
    }
}

/// The first failing precondition of a bid by `bidder` at `now`, if any.
pub open spec fn bid_error(s: BoyncAuction2, bidder: Seq<u8>, now: i64) -> Option<AuctionError> {
    if window_error(s, now) is Some {
        window_error(s, now)
    } else if s.claimed != 0 {
        Some(AuctionError::AuctionClaimed)
    } else if bidder == s.authority@ {
        Some(AuctionError::AuctionAuthorityBid)
    } else if bidder == s.last_bidder@ {
        Some(AuctionError::AuctionAlreadyLastBidder)
    } else {
        None
    }
}

/// The record after an accepted bid by `bidder` at `now`.
pub open spec fn after_bid(s: BoyncAuction2, bidder: Address, now: i64) -> BoyncAuction2 {
    BoyncAuction2 {
        last_bidder: bidder,
        end_auction_at: extended_end(s.end_auction_at, now),
        next_bid: escalated_bid(s.next_bid),
        ..s
    }
}

/// The first failing precondition of an early close by `caller` at `now`, if any.
pub open spec fn end_error(s: BoyncAuction2, caller: Seq<u8>, now: i64) -> Option<AuctionError> {
    if caller != s.authority@ {
        Some(AuctionError::InvalidAuthority)
    } else {
        window_error(s, now)
    }
}

/// The first failing precondition of a claim by `winner` at `now`, if any.
pub open spec fn claim_error(s: BoyncAuction2, winner: Seq<u8>, now: i64) -> Option<AuctionError> {
    if now < s.end_auction_at {
        Some(AuctionError::AuctionActive)
    } else if s.claimed != 0 {
        Some(AuctionError::AuctionClaimed)
    } else if s.last_bidder@ == zero_key() {
        if winner == s.authority@ {
            None
        } else {
            Some(AuctionError::YouAreNotTheAuthority)
        }
    } else if winner == s.last_bidder@ {
        None
    } else {
        Some(AuctionError::YouAreNotTheWinner)
    }
}

/// Whether `s` is the record that a creation with these arguments writes.
pub open spec fn is_new_record(
    s: BoyncAuction2,
    app_idx: i64,
    state_bump: u8,
    fp: u64,
    start_at: i64,
    end_at: i64,
    signer: Address,
    treasury_mint: Address,
    treasury: Address,
    bidders_chest: Address,
) -> bool {
    &&& s.id == app_idx
    &&& s.start_auction_at == start_at
    &&& s.end_auction_at == end_at
    &&& s.authority == signer
    &&& s.treasury_mint == treasury_mint
    &&& s.treasury == treasury
    &&& s.bidders_chest == bidders_chest
    &&& s.starting_price == starting_price_for(fp)
    &&& s.next_bid == starting_price_for(fp)
    &&& s.claimed == 0
    &&& s.last_bidder@ == zero_key()
    &&& s.bump == state_bump
}

/// `seeds` followed by the single byte `bump`.
fn with_bump(seeds: Vec<Vec<u8>>, bump: u8) -> (r: Vec<Vec<u8>>)
    ensures
        seeds_view(r@) == seeds_view(seeds@).push(seq![bump]),
{
    let mut r = seeds;
    let ghost before = r@;
    let b: Vec<u8> = vec![bump];
    assert(b@ =~= seq![bump]);
    r.push(b);
    assert(seeds_view(r@) =~= seeds_view(before).push(seq![bump]));
    r
}

/// The seeds that sign for the auction record.
pub fn record_signer_seeds(state: &BoyncAuction2) -> (r: Vec<Vec<u8>>)
    ensures
        seeds_view(r@) == record_signer(*state),
{
    let seeds = seeds_for(SeedTag::Auction, &state.authority, Some(state.treasury_mint), state.id);
    with_bump(seeds, state.bump)
}

/// The seeds that sign for the bidders' chest.
pub fn chest_signer_seeds(state: &BoyncAuction2, bump: u8) -> (r: Vec<Vec<u8>>)
    ensures
        seeds_view(r@) == chest_signer(*state, bump),
{
    let seeds = seeds_for(SeedTag::Wallet, &state.authority, None, state.id);
    with_bump(seeds, bump)
}

/// Checks that `now` (milliseconds) lies inside the bidding window.
pub fn assert_auction_active(state: &BoyncAuction2, now: i64) -> (r: Result<(), AuctionError>)
    ensures
        match r {
            Ok(()) => window_error(*state, now) is None,
            Err(e) => window_error(*state, now) == Some(e),
        },
{
    if now < state.start_auction_at {
        Err(AuctionError::AuctionNotStarted)
    } else if now > state.end_auction_at {
        Err(AuctionError::AuctionEnded)
    } else {
        Ok(())
    }
}

/// Checks that the window has reached its end at `now` (milliseconds).
pub fn assert_auction_over(state: &BoyncAuction2, now: i64) -> (r: Result<(), AuctionError>)
    ensures
        r is Ok <==> now >= state.end_auction_at,
        r is Err ==> r == Err::<(), AuctionError>(AuctionError::AuctionActive),
{
    if now < state.end_auction_at {
        Err(AuctionError::AuctionActive)
    } else {
        Ok(())
    }
}

/// Anti-snipe rule: a bid at or before the end pushes the end back.
pub fn process_time_extension(state: &mut BoyncAuction2, now: i64)
    ensures
        *final(state) == (BoyncAuction2 { end_auction_at: extended_end(old(state).end_auction_at, now), ..*old(state) }),
{
    state.end_auction_at = extend_end(state.end_auction_at, now);
}

/// The record that a creation writes.
fn new_record(
    app_idx: i64,
    state_bump: u8,
    fp: u64,
    start_at: i64,
    end_at: i64,
    signer: Address,
    treasury_mint: Address,
    treasury: Address,
    bidders_chest: Address,
) -> (r: BoyncAuction2)
    ensures
        is_new_record(r, app_idx, state_bump, fp, start_at, end_at, signer, treasury_mint, treasury, bidders_chest),
        r.wf(),
{
    let price = starting_price(fp);
    BoyncAuction2 {
        id: app_idx,
        start_auction_at: start_at,
        end_auction_at: end_at,
        authority: signer,
        treasury_mint,
        treasury,
        bidders_chest,
        starting_price: price,
        next_bid: price,
        claimed: 0,
        last_bidder: Address::zero(),
        bump: state_bump,
    }
}

/// Creates an auction record and asks for one unit of the asset to move from
/// the creator into the treasury through the token program, signed with the
/// record's seeds.
pub fn initialize(
    app_idx: i64,
    state_bump: u8,
    fp: u64,
    start_at: i64,
    end_at: i64,
    signer: Address,
    treasury_mint: Address,
    treasury: Address,
    bidders_chest: Address,
) -> (r: (BoyncAuction2, AssetMove))
    ensures
        is_new_record(r.0, app_idx, state_bump, fp, start_at, end_at, signer, treasury_mint, treasury, bidders_chest),
        r.0.wf(),
        r.1.amount == 1,
        seeds_view(r.1.signer_seeds@) == record_signer(r.0),
{
    let record = new_record(app_idx, state_bump, fp, start_at, end_at, signer, treasury_mint, treasury, bidders_chest);
    let seeds = record_signer_seeds(&record);
    (record, AssetMove { amount: 1, signer_seeds: seeds })
}

/// Creates an auction record and asks the custody adapter to move one unit of
/// the asset from the creator (who signs) into the treasury.
pub fn initialize_auction_2(
    app_idx: i64,
    state_bump: u8,
    fp: u64,
    start_at: i64,
    end_at: i64,
    signer: Address,
    treasury_mint: Address,
    treasury: Address,
    bidders_chest: Address,
) -> (r: (BoyncAuction2, AssetMove))
    ensures
        is_new_record(r.0, app_idx, state_bump, fp, start_at, end_at, signer, treasury_mint, treasury, bidders_chest),
        r.0.wf(),
        r.1.amount == 1,
        r.1.signer_seeds@.len() == 0,
{
    let record = new_record(app_idx, state_bump, fp, start_at, end_at, signer, treasury_mint, treasury, bidders_chest);
    (record, AssetMove { amount: 1, signer_seeds: Vec::new() })
}

/// A bid by `bidder` at `now` (milliseconds) with salt `ts` on the record whose
/// address is `auction_key`. On success the bidder pays the asked price into the
/// chest, a receipt records it, the bidder becomes the last bidder, the window is
/// extended and the price rises; on failure nothing changes.
pub fn update_auction_2(
    state: &mut BoyncAuction2,
    auction_key: Address,
    bidder: Address,
    ts: i64,
    now: i64,
) -> (r: Result<BidOutcome, AuctionError>)
    ensures
        match r {
            Ok(out) => {
                &&& bid_error(*old(state), bidder@, now) is None
                &&& *final(state) == after_bid(*old(state), bidder, now)
                &&& out.payment.amount == old(state).next_bid
                &&& seeds_view(out.payment.signer_seeds@) == record_signer(*old(state))
                &&& out.receipt == (BoyncUserBid { auction: auction_key, bidder, bid_value: old(state).next_bid, ts })
            },
            Err(e) => {
                &&& bid_error(*old(state), bidder@, now) == Some(e)
                &&& *final(state) == *old(state)
            },
        },
        old(state).wf() ==> final(state).wf(),
{
    match assert_auction_active(state, now) {
        Ok(()) => {},
        Err(e) => {
            return Err(e);
        },
    }
    if state.claimed != 0 {
        return Err(AuctionError::AuctionClaimed);
    }
    if state.authority.same_as(&bidder) {
        return Err(AuctionError::AuctionAuthorityBid);
    }
    if state.last_bidder.same_as(&bidder) {
        return Err(AuctionError::AuctionAlreadyLastBidder);
    }
    let price = state.next_bid;
    let seeds = record_signer_seeds(state);
    let receipt = BoyncUserBid { auction: auction_key, bidder, bid_value: price, ts };
    state.last_bidder = bidder;
    process_time_extension(state, now);
    state.next_bid = next_bid_price(price);
    Ok(BidOutcome { payment: NativeTransfer { amount: price, signer_seeds: seeds }, receipt })
}

/// An early close by `caller` at `now` (milliseconds), with the chest holding
/// `chest_balance`. The window ends now; the seller gets floor(75%) of the chest
/// and the named destination the rest, both signed with the chest's seeds.
pub fn end(
    state: &mut BoyncAuction2,
    caller: Address,
    now: i64,
    bidder_chest_bump: u8,
    chest_balance: u64,
) -> (r: Result<EndOutcome, AuctionError>)
    ensures
        match r {
            Ok(out) => {
                &&& end_error(*old(state), caller@, now) is None
                &&& *final(state) == (BoyncAuction2 { end_auction_at: now, ..*old(state) })
                &&& out.to_authority.amount == authority_share(chest_balance)
                &&& out.to_treasury.amount == chest_balance - authority_share(chest_balance)
                &&& seeds_view(out.to_authority.signer_seeds@) == chest_signer(*old(state), bidder_chest_bump)
                &&& seeds_view(out.to_treasury.signer_seeds@) == chest_signer(*old(state), bidder_chest_bump)
            },
            Err(e) => {
                &&& end_error(*old(state), caller@, now) == Some(e)
                &&& *final(state) == *old(state)
            },
        },
        old(state).wf() ==> final(state).wf(),
{
    if !state.authority.same_as(&caller) {
        return Err(AuctionError::InvalidAuthority);
    }
    match assert_auction_active(state, now) {
        Ok(()) => {},
        Err(e) => {
            return Err(e);
        },
    }
    state.end_auction_at = now;
    let share = seller_share(chest_balance);
    let rest = chest_balance - share;
    Ok(EndOutcome {
        to_authority: NativeTransfer { amount: share, signer_seeds: chest_signer_seeds(state, bidder_chest_bump) },
        to_treasury: NativeTransfer { amount: rest, signer_seeds: chest_signer_seeds(state, bidder_chest_bump) },
    })
}

/// A claim by `winner` at `now` (milliseconds). When the window is over and the
/// asset unclaimed, the last bidder (or, with no bid, the seller) gets one unit
/// of the asset from the treasury, signed with the record's seeds, and the record
/// is marked claimed; on failure nothing changes.
pub fn claim_rewards(state: &mut BoyncAuction2, winner: Address, now: i64) -> (r: Result<AssetMove, AuctionError>)
    ensures
        match r {
            Ok(out) => {
                &&& claim_error(*old(state), winner@, now) is None
                &&& *final(state) == (BoyncAuction2 { claimed: 1, ..*old(state) })
                &&& out.amount == 1
                &&& seeds_view(out.signer_seeds@) == record_signer(*old(state))
            },
            Err(e) => {
                &&& claim_error(*old(state), winner@, now) == Some(e)
                &&& *final(state) == *old(state)
            },
        },
        old(state).wf() ==> final(state).wf(),
{
    match assert_auction_over(state, now) {
        Ok(()) => {},
        Err(e) => {
            return Err(e);
        },
    }
    if state.claimed != 0 {
        return Err(AuctionError::AuctionClaimed);
    }
    let nobody = Address::zero();
    if state.last_bidder.same_as(&nobody) {
        if !state.authority.same_as(&winner) {
            return Err(AuctionError::YouAreNotTheAuthority);
        }
    } else {
        if !state.last_bidder.same_as(&winner) {
            return Err(AuctionError::YouAreNotTheWinner);
        }
    }
    let seeds = record_signer_seeds(state);
    state.claimed = 1;
    Ok(AssetMove { amount: 1, signer_seeds: seeds })
}

} // verus!
