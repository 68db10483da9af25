use vstd::prelude::*;
use crate::address::{Address, zero_key};
use crate::errors::AuctionError;
use crate::rules::MS_IN_SEC;

verus! {

/// The persistent record of one auction.
#[derive(Clone, Copy, Debug)]
pub struct BoyncAuction2 {
    /// Instance identifier, also the derivation salt (a creation timestamp).
    pub id: i64,
    /// Opening of the bidding window, in milliseconds.
    pub start_auction_at: i64,
    /// Close of the bidding window, in milliseconds.
    pub end_auction_at: i64,
    /// The seller.
    pub authority: Address,
    /// The mint of the auctioned asset.
    pub treasury_mint: Address,
    /// The account that holds the auctioned asset.
    pub treasury: Address,
    /// The account that holds the escrowed bids.
    pub bidders_chest: Address,
    /// The opening price.
    pub starting_price: u64,
    /// The price that the next bidder pays.
    pub next_bid: u64,
    /// 1 once the asset was claimed, else 0.
    pub claimed: u8,
    /// The highest bidder so far; all zero before the first bid.
    pub last_bidder: Address,
    /// The bump seed of the record's own derived address.
    pub bump: u8,
}

/// The receipt of one accepted bid.
#[derive(Clone, Copy, Debug)]
pub struct BoyncUserBid {
    /// The auction record that the bid was placed on.
    pub auction: Address,
    /// Who placed it.
    pub bidder: Address,
    /// What was paid: the asked price before the bid raised it.
    pub bid_value: u64,
    /// The client's salt for this bid.
    pub ts: i64,
}

/// Where an auction stands at a given time, computed from the record on read.
#[derive(Clone, Copy, Debug, PartialEq, Eq, Structural)]
pub enum AuctionPhase {
    /// The window has not opened.
    Created,
    /// The window is open.
    Active,
    /// The window has closed and the asset waits for its claimant.
    Ended,
    /// The asset was claimed.
    Claimed,
}

/// The phase of `s` at `now` (milliseconds).
pub open spec fn phase_at(s: BoyncAuction2, now: i64) -> AuctionPhase {
    if s.claimed != 0 {
        AuctionPhase::Claimed
    } else if now < s.start_auction_at {
        AuctionPhase::Created
    } else if now <= s.end_auction_at {
        AuctionPhase::Active
    } else {
        AuctionPhase::Ended
    }
}

impl BoyncAuction2 {
    /// Whether some bid was accepted (the last bidder is not the sentinel).
    pub open spec fn has_bid(&self) -> bool {
        self.last_bidder@ != zero_key()
    }

    /// The record's invariant: the flag is 0 or 1, and the seller never holds the
    /// highest bid.
    pub open spec fn wf(&self) -> bool {
        &&& self.claimed <= 1
        &&& self.has_bid() ==> self.last_bidder@ != self.authority@
    }

    /// Whether the window closed before `now`, given in seconds.
    pub fn ended(&self, now: i64) -> (r: bool)
        ensures
            r == (now * MS_IN_SEC > self.end_auction_at),
    {
        (now as i128) * 1000 > self.end_auction_at as i128
    }

    /// The phase at `now`, given in milliseconds.
    pub fn phase(&self, now: i64) -> (r: AuctionPhase)
        ensures
            r == phase_at(*self, now),
    {
        if self.claimed != 0 {
            AuctionPhase::Claimed
        } else if now < self.start_auction_at {
            AuctionPhase::Created
        } else if now <= self.end_auction_at {
            AuctionPhase::Active
        } else {
            AuctionPhase::Ended
        }
    }
}

/// The stored state of the earlier, enum-driven auction design.
#[derive(Clone, Copy, Debug, PartialEq, Eq, Structural)]
pub enum AuctionState {
    Created,
    Started,
    Ended,
}

impl AuctionState {
    /// A new auction starts out created.
    pub fn create() -> (r: Self)
        ensures
            r == AuctionState::Created,
    {
        AuctionState::Created
    }

    /// Created -> Started; anything else is an invalid transition.
    pub fn start(self) -> (r: Result<Self, AuctionError>)
        ensures
            self == AuctionState::Created ==> r == Ok::<Self, AuctionError>(AuctionState::Started),
            self != AuctionState::Created ==> r == Err::<Self, AuctionError>(AuctionError::AuctionTransitionInvalid),
    {
        match self {
            AuctionState::Created => Ok(AuctionState::Started),
            _ => Err(AuctionError::AuctionTransitionInvalid),
        }
    }

    /// Created or Started -> Ended; ending twice is an invalid transition.
    pub fn end(self) -> (r: Result<Self, AuctionError>)
        ensures
            self != AuctionState::Ended ==> r == Ok::<Self, AuctionError>(AuctionState::Ended),
            self == AuctionState::Ended ==> r == Err::<Self, AuctionError>(AuctionError::AuctionTransitionInvalid),
    {
        match self {
            AuctionState::Started => Ok(AuctionState::Ended),
            AuctionState::Created => Ok(AuctionState::Ended),
            _ => Err(AuctionError::AuctionTransitionInvalid),
        }
    }
}

} // verus!
