use vstd::prelude::*;

verus! {

/// Milliseconds per second of host clock time.
pub const MS_IN_SEC: i64 = 1000;

/// How far a bid placed inside the window pushes the end of the window.
pub const TIME_EXTENSION_MS: i64 = 60_000;

/// Percentage of the floor price at which bidding opens.
pub const STARTING_PRICE_PERCENT: u64 = 5;

/// Percentage of the current price that the next bidder pays.
pub const BID_STEP_PERCENT: u64 = 105;

/// Percentage of the chest that the seller receives when closing the auction.
pub const AUTHORITY_SHARE_PERCENT: u64 = 75;

/// floor(0.05 * floor_price).
pub open spec fn starting_price_for(floor_price: u64) -> u64 {
    (floor_price * STARTING_PRICE_PERCENT / 100) as u64
}

/// floor(1.05 * price), saturating at the largest amount.
pub open spec fn escalated_bid(price: u64) -> u64 {
    let v = price * BID_STEP_PERCENT / 100;
    if v > u64::MAX {
        u64::MAX
    } else {
        v as u64
    }
}

/// floor(0.75 * total).
pub open spec fn authority_share(total: u64) -> u64 {
    (total * AUTHORITY_SHARE_PERCENT / 100) as u64
}

/// The end of the window after a bid at `now`: pushed back by the extension when
/// the bid lands at or before the end (saturating at the latest time), else kept.
pub open spec fn extended_end(end_at: i64, now: i64) -> i64 {
    if now <= end_at {
        if end_at > i64::MAX - TIME_EXTENSION_MS {
            i64::MAX
        } else {
            (end_at + TIME_EXTENSION_MS) as i64
        }
    } else {
        end_at
    }
}

/// The opening price for a floor price.
pub fn starting_price(floor_price: u64) -> (r: u64)
    ensures
        r == starting_price_for(floor_price),
{
    assert(floor_price * STARTING_PRICE_PERCENT <= 0xffff_ffff_ffff_ffff * 105) by (nonlinear_arith)
        requires
            floor_price <= 0xffff_ffff_ffff_ffff,
            STARTING_PRICE_PERCENT == 5,
    ;
    let v: u128 = (floor_price as u128) * (STARTING_PRICE_PERCENT as u128) / 100;
    assert(v <= floor_price) by (nonlinear_arith)
        requires
            v == floor_price * 5 / 100,
    ;
    v as u64
}

/// The price that the next bidder pays after a bid at `price`.
pub fn next_bid_price(price: u64) -> (r: u64)
    ensures
        r == escalated_bid(price),
{
    assert(price * BID_STEP_PERCENT <= 0xffff_ffff_ffff_ffff * 105) by (nonlinear_arith)
        requires
            price <= 0xffff_ffff_ffff_ffff,
            BID_STEP_PERCENT == 105,
    ;
    let v: u128 = (price as u128) * (BID_STEP_PERCENT as u128) / 100;
    if v > u64::MAX as u128 {
        u64::MAX
    } else {
        v as u64
    }
}

/// The seller's part of a chest holding `total`.
pub fn seller_share(total: u64) -> (r: u64)
    ensures
        r == authority_share(total),
        r <= total,
{
    assert(total * AUTHORITY_SHARE_PERCENT <= 0xffff_ffff_ffff_ffff * 105) by (nonlinear_arith)
        requires
            total <= 0xffff_ffff_ffff_ffff,
            AUTHORITY_SHARE_PERCENT == 75,
    ;
    let v: u128 = (total as u128) * (AUTHORITY_SHARE_PERCENT as u128) / 100;
    assert(v <= total) by (nonlinear_arith)
        requires
            v == total * 75 / 100,
    ;
    v as u64
}

/// The end of the window after a bid at `now`.
pub fn extend_end(end_at: i64, now: i64) -> (r: i64)
    ensures
        r == extended_end(end_at, now),
{
    if now <= end_at {
        if end_at > i64::MAX - TIME_EXTENSION_MS {
            i64::MAX
        } else {
            end_at + TIME_EXTENSION_MS
        }
    } else {
        end_at
    }
}

/// The host clock's seconds in milliseconds, or `None` when that does not fit.
pub fn timestamp_millis(unix_timestamp: i64) -> (r: Option<i64>)
    ensures
        r is Some <==> i64::MIN <= unix_timestamp * MS_IN_SEC <= i64::MAX,
        r matches Some(ms) ==> ms == unix_timestamp * MS_IN_SEC,
{
    unix_timestamp.checked_mul(MS_IN_SEC)
}

} // verus!
