use boync_anchor_program::account::{AuctionPhase, AuctionState, BoyncAuction2};
use boync_anchor_program::address::Address;
use boync_anchor_program::errors::AuctionError;
use boync_anchor_program::processor::{
    assert_auction_active, assert_auction_over, claim_rewards, end, initialize, initialize_auction_2,
    process_time_extension, update_auction_2,
};
use boync_anchor_program::rules::{next_bid_price, seller_share, starting_price, timestamp_millis};

const SELLER: Address = Address([7u8; 32]);
const MINT: Address = Address([8u8; 32]);
const TREASURY: Address = Address([9u8; 32]);
const CHEST: Address = Address([10u8; 32]);
const RECORD: Address = Address([11u8; 32]);
const ALICE: Address = Address([1u8; 32]);
const BOB: Address = Address([2u8; 32]);

fn fresh(fp: u64, start_at: i64, end_at: i64) -> BoyncAuction2 {
    initialize(1_700_000_000, 254, fp, start_at, end_at, SELLER, MINT, TREASURY, CHEST).0
}

#[test]
fn initialize_sets_starting_price_and_record() {
    let (rec, mv) = initialize(42, 253, 3_000_000_000, 1_000, 2_000, SELLER, MINT, TREASURY, CHEST);
    assert_eq!(rec.starting_price, 150_000_000);
    assert_eq!(rec.next_bid, 150_000_000);
    assert_eq!(rec.id, 42);
    assert_eq!(rec.start_auction_at, 1_000);
    assert_eq!(rec.end_auction_at, 2_000);
    assert_eq!(rec.authority.0, SELLER.0);
    assert_eq!(rec.treasury_mint.0, MINT.0);
    assert_eq!(rec.treasury.0, TREASURY.0);
    assert_eq!(rec.bidders_chest.0, CHEST.0);
    assert_eq!(rec.claimed, 0);
    assert_eq!(rec.last_bidder.0, [0u8; 32]);
    assert_eq!(rec.bump, 253);
    assert_eq!(mv.amount, 1);
    assert_eq!(mv.signer_seeds.len(), 5);
    assert_eq!(mv.signer_seeds[0], b"auction".to_vec());
    assert_eq!(mv.signer_seeds[1], SELLER.0.to_vec());
    assert_eq!(mv.signer_seeds[2], MINT.0.to_vec());
    assert_eq!(mv.signer_seeds[3], 42i64.to_le_bytes().to_vec());
    assert_eq!(mv.signer_seeds[4], vec![253u8]);
}

#[test]
fn initialize_auction_2_moves_one_unit_signed_by_creator() {
    let (rec, mv) = initialize_auction_2(42, 253, 10_000_000_000, 1_000, 2_000, SELLER, MINT, TREASURY, CHEST);
    assert_eq!(rec.starting_price, 500_000_000);
    assert_eq!(rec.next_bid, 500_000_000);
    assert_eq!(mv.amount, 1);
    assert!(mv.signer_seeds.is_empty());
}

#[test]
fn starting_price_rounds_down() {
    assert_eq!(starting_price(3_000_000_000), 150_000_000);
    assert_eq!(starting_price(39), 1);
    assert_eq!(starting_price(19), 0);
    assert_eq!(starting_price(u64::MAX), u64::MAX / 20);
}

#[test]
fn next_bid_price_rounds_down_and_saturates() {
    assert_eq!(next_bid_price(150_000_000), 157_500_000);
    assert_eq!(next_bid_price(157_500_000), 165_375_000);
    assert_eq!(next_bid_price(20), 21);
    assert_eq!(next_bid_price(19), 19);
    assert_eq!(next_bid_price(0), 0);
    assert_eq!(next_bid_price(u64::MAX), u64::MAX);
}

#[test]
fn seller_share_is_three_quarters_rounded_down() {
    assert_eq!(seller_share(200_000_000), 150_000_000);
    assert_eq!(seller_share(3), 2);
    assert_eq!(seller_share(0), 0);
    assert_eq!(seller_share(u64::MAX), 13835058055282163711);
}

#[test]
fn first_and_second_bid_scenario() {
    let mut rec = fresh(3_000_000_000, 1_000, 100_000);
    assert_eq!(rec.starting_price, 150_000_000);
    let out = update_auction_2(&mut rec, RECORD, ALICE, 77, 5_000).unwrap();
    assert_eq!(out.payment.amount, 150_000_000);
    assert_eq!(out.receipt.bid_value, 150_000_000);
    assert_eq!(out.receipt.bidder.0, ALICE.0);
    assert_eq!(out.receipt.auction.0, RECORD.0);
    assert_eq!(out.receipt.ts, 77);
    assert_eq!(out.payment.signer_seeds[0], b"auction".to_vec());
    assert_eq!(out.payment.signer_seeds[4], vec![254u8]);
    assert_eq!(rec.next_bid, 157_500_000);
    assert_eq!(rec.last_bidder.0, ALICE.0);
    assert_eq!(rec.end_auction_at, 160_000);
    let second = update_auction_2(&mut rec, RECORD, BOB, 78, 6_000).unwrap();
    assert_eq!(second.payment.amount, 157_500_000);
    assert_eq!(second.receipt.bid_value, 157_500_000);
    assert_eq!(rec.last_bidder.0, BOB.0);
    assert_eq!(rec.next_bid, 165_375_000);
    assert_eq!(rec.end_auction_at, 220_000);
}

#[test]
fn price_ladder_strictly_increases() {
    let mut rec = fresh(3_000_000_000, 0, 1_000_000);
    let mut last = rec.next_bid;
    for i in 0..10 {
        let who = if i % 2 == 0 { ALICE } else { BOB };
        update_auction_2(&mut rec, RECORD, who, i, 10).unwrap();
        assert!(rec.next_bid > last);
        last = rec.next_bid;
    }
}

#[test]
fn bid_at_end_extends_window() {
    let mut rec = fresh(3_000_000_000, 0, 10_000);
    update_auction_2(&mut rec, RECORD, ALICE, 1, 10_000).unwrap();
    assert_eq!(rec.end_auction_at, 70_000);
}

#[test]
fn bid_extension_saturates_at_latest_time() {
    let mut rec = fresh(3_000_000_000, 0, i64::MAX - 10);
    update_auction_2(&mut rec, RECORD, ALICE, 1, 10).unwrap();
    assert_eq!(rec.end_auction_at, i64::MAX);
}

#[test]
fn process_time_extension_only_extends_inside_window() {
    let mut rec = fresh(3_000_000_000, 0, 10_000);
    process_time_extension(&mut rec, 20_000);
    assert_eq!(rec.end_auction_at, 10_000);
    process_time_extension(&mut rec, 10_000);
    assert_eq!(rec.end_auction_at, 70_000);
}

#[test]
fn bid_before_start_fails() {
    let mut rec = fresh(3_000_000_000, 1_000, 2_000);
    let before = rec;
    assert_eq!(update_auction_2(&mut rec, RECORD, ALICE, 1, 999).unwrap_err(), AuctionError::AuctionNotStarted);
    assert_eq!(rec.next_bid, before.next_bid);
    assert_eq!(rec.end_auction_at, before.end_auction_at);
}

#[test]
fn bid_after_end_fails() {
    let mut rec = fresh(3_000_000_000, 1_000, 2_000);
    assert_eq!(update_auction_2(&mut rec, RECORD, ALICE, 1, 2_001).unwrap_err(), AuctionError::AuctionEnded);
    assert_eq!(rec.last_bidder.0, [0u8; 32]);
}

#[test]
fn bid_on_claimed_auction_fails() {
    let mut rec = fresh(3_000_000_000, 1_000, 2_000);
    rec.claimed = 1;
    assert_eq!(update_auction_2(&mut rec, RECORD, ALICE, 1, 1_500).unwrap_err(), AuctionError::AuctionClaimed);
}

#[test]
fn seller_bid_fails() {
    let mut rec = fresh(3_000_000_000, 1_000, 2_000);
    assert_eq!(update_auction_2(&mut rec, RECORD, SELLER, 1, 1_500).unwrap_err(), AuctionError::AuctionAuthorityBid);
    update_auction_2(&mut rec, RECORD, ALICE, 1, 1_500).unwrap();
    assert_eq!(update_auction_2(&mut rec, RECORD, SELLER, 2, 1_600).unwrap_err(), AuctionError::AuctionAuthorityBid);
    assert!(update_auction_2(&mut rec, RECORD, SELLER, 3, 999_999).is_err());
}

#[test]
fn outbidding_yourself_fails() {
    let mut rec = fresh(3_000_000_000, 1_000, 2_000);
    update_auction_2(&mut rec, RECORD, ALICE, 1, 1_500).unwrap();
    let price = rec.next_bid;
    assert_eq!(
        update_auction_2(&mut rec, RECORD, ALICE, 2, 1_600).unwrap_err(),
        AuctionError::AuctionAlreadyLastBidder
    );
    assert_eq!(rec.next_bid, price);
}

#[test]
fn end_mid_window_splits_chest() {
    let mut rec = fresh(3_000_000_000, 1_000, 100_000);
    let out = end(&mut rec, SELLER, 50_000, 251, 200_000_000).unwrap();
    assert_eq!(out.to_authority.amount, 150_000_000);
    assert_eq!(out.to_treasury.amount, 50_000_000);
    assert_eq!(rec.end_auction_at, 50_000);
    assert_eq!(out.to_authority.signer_seeds.len(), 4);
    assert_eq!(out.to_authority.signer_seeds[0], b"wallet".to_vec());
    assert_eq!(out.to_authority.signer_seeds[1], SELLER.0.to_vec());
    assert_eq!(out.to_authority.signer_seeds[2], 1_700_000_000i64.to_le_bytes().to_vec());
    assert_eq!(out.to_authority.signer_seeds[3], vec![251u8]);
}

#[test]
fn end_with_odd_balance_keeps_every_unit() {
    let mut rec = fresh(3_000_000_000, 1_000, 100_000);
    let out = end(&mut rec, SELLER, 50_000, 251, 7).unwrap();
    assert_eq!(out.to_authority.amount, 5);
    assert_eq!(out.to_treasury.amount, 2);
}

#[test]
fn end_by_stranger_fails() {
    let mut rec = fresh(3_000_000_000, 1_000, 100_000);
    assert_eq!(end(&mut rec, ALICE, 50_000, 251, 10).unwrap_err(), AuctionError::InvalidAuthority);
    assert_eq!(rec.end_auction_at, 100_000);
}

#[test]
fn end_outside_window_fails() {
    let mut rec = fresh(3_000_000_000, 1_000, 100_000);
    assert_eq!(end(&mut rec, SELLER, 500, 251, 10).unwrap_err(), AuctionError::AuctionNotStarted);
    assert_eq!(end(&mut rec, SELLER, 100_001, 251, 10).unwrap_err(), AuctionError::AuctionEnded);
}

#[test]
fn claim_before_end_fails_then_succeeds_once() {
    let mut rec = fresh(3_000_000_000, 1_000, 100_000);
    update_auction_2(&mut rec, RECORD, ALICE, 1, 5_000).unwrap();
    let end_at = rec.end_auction_at;
    assert_eq!(claim_rewards(&mut rec, ALICE, end_at - 1).unwrap_err(), AuctionError::AuctionActive);
    let mv = claim_rewards(&mut rec, ALICE, end_at).unwrap();
    assert_eq!(mv.amount, 1);
    assert_eq!(mv.signer_seeds[0], b"auction".to_vec());
    assert_eq!(rec.claimed, 1);
    assert_eq!(claim_rewards(&mut rec, ALICE, end_at + 5).unwrap_err(), AuctionError::AuctionClaimed);
}

#[test]
fn only_winner_can_claim() {
    let mut rec = fresh(3_000_000_000, 1_000, 100_000);
    update_auction_2(&mut rec, RECORD, ALICE, 1, 5_000).unwrap();
    update_auction_2(&mut rec, RECORD, BOB, 2, 6_000).unwrap();
    let t = rec.end_auction_at + 1;
    assert_eq!(claim_rewards(&mut rec, ALICE, t).unwrap_err(), AuctionError::YouAreNotTheWinner);
    assert_eq!(claim_rewards(&mut rec, SELLER, t).unwrap_err(), AuctionError::YouAreNotTheWinner);
    assert_eq!(rec.claimed, 0);
    assert!(claim_rewards(&mut rec, BOB, t).is_ok());
}

#[test]
fn only_seller_claims_without_bids() {
    let mut rec = fresh(3_000_000_000, 1_000, 100_000);
    assert_eq!(claim_rewards(&mut rec, ALICE, 100_000).unwrap_err(), AuctionError::YouAreNotTheAuthority);
    assert!(claim_rewards(&mut rec, SELLER, 100_000).is_ok());
}

#[test]
fn early_end_then_claim() {
    let mut rec = fresh(3_000_000_000, 1_000, 100_000);
    update_auction_2(&mut rec, RECORD, ALICE, 1, 5_000).unwrap();
    end(&mut rec, SELLER, 6_000, 250, 150_000_000).unwrap();
    assert_eq!(update_auction_2(&mut rec, RECORD, BOB, 2, 6_001).unwrap_err(), AuctionError::AuctionEnded);
    assert!(claim_rewards(&mut rec, ALICE, 6_000).is_ok());
}

#[test]
fn window_checks() {
    let rec = fresh(3_000_000_000, 1_000, 2_000);
    assert_eq!(assert_auction_active(&rec, 999), Err(AuctionError::AuctionNotStarted));
    assert_eq!(assert_auction_active(&rec, 1_000), Ok(()));
    assert_eq!(assert_auction_active(&rec, 2_000), Ok(()));
    assert_eq!(assert_auction_active(&rec, 2_001), Err(AuctionError::AuctionEnded));
    assert_eq!(assert_auction_over(&rec, 1_999), Err(AuctionError::AuctionActive));
    assert_eq!(assert_auction_over(&rec, 2_000), Ok(()));
}

#[test]
fn phases_follow_the_clock() {
    let mut rec = fresh(3_000_000_000, 1_000, 2_000);
    assert_eq!(rec.phase(999), AuctionPhase::Created);
    assert_eq!(rec.phase(1_500), AuctionPhase::Active);
    assert_eq!(rec.phase(2_001), AuctionPhase::Ended);
    claim_rewards(&mut rec, SELLER, 2_001).unwrap();
    assert_eq!(rec.phase(2_001), AuctionPhase::Claimed);
    assert!(rec.ended(3));
    assert!(!rec.ended(2));
}

#[test]
fn clock_seconds_to_millis() {
    assert_eq!(timestamp_millis(1_700_000_000), Some(1_700_000_000_000));
    assert_eq!(timestamp_millis(-2), Some(-2_000));
    assert_eq!(timestamp_millis(i64::MAX / 10), None);
}

#[test]
fn legacy_state_transitions() {
    let s = AuctionState::create();
    assert_eq!(s, AuctionState::Created);
    assert_eq!(s.start(), Ok(AuctionState::Started));
    assert_eq!(AuctionState::Started.start(), Err(AuctionError::AuctionTransitionInvalid));
    assert_eq!(AuctionState::Started.end(), Ok(AuctionState::Ended));
    assert_eq!(AuctionState::Created.end(), Ok(AuctionState::Ended));
    assert_eq!(AuctionState::Ended.end(), Err(AuctionError::AuctionTransitionInvalid));
}

#[test]
fn error_messages() {
    assert_eq!(AuctionError::AuctionClaimed.message(), "Auction has already been claimed!");
    assert_eq!(AuctionError::AuctionActive.message(), "Auction has not ended yet");
}
