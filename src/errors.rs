use vstd::prelude::*;

verus! {

/// Why an auction operation was refused.
#[derive(Clone, Copy, Debug, PartialEq, Eq, Structural)]
pub enum AuctionError {
    /// A legacy stored-state transition that is not allowed.
    AuctionTransitionInvalid,
    /// The auction is not in a state that allows the operation.
    InvalidState,
    /// The bidding window has not opened yet.
    AuctionNotStarted,
    /// The bidding window has closed.
    AuctionEnded,
    /// The auction is still running, so it cannot be claimed.
    AuctionActive,
    /// The auctioned asset was already claimed.
    AuctionClaimed,
    /// The seller tried to bid on their own auction.
    AuctionAuthorityBid,
    /// The caller already holds the highest bid.
    AuctionAlreadyLastBidder,
    /// Someone other than the highest bidder tried to claim.
    YouAreNotTheWinner,
    /// Nobody bid, and someone other than the seller tried to claim.
    YouAreNotTheAuthority,
    /// The bid is below the asked price.
    BidTooSmall,
    /// Someone other than the seller tried to close the auction.
    InvalidAuthority,
    /// A supplied address differs from the expected (derived) one.
    PublicKeyMismatch,
}

impl AuctionError {
    /// The human-readable message of each error.
    pub fn message(&self) -> (r: &'static str) {
        match self {
            AuctionError::AuctionTransitionInvalid => "Invalid auction state transition.",
            AuctionError::InvalidState => "Auction is not currently running.",
            AuctionError::AuctionNotStarted => "Auction has not started yet",
            AuctionError::AuctionEnded => "Auction has ended",
            AuctionError::AuctionActive => "Auction has not ended yet",
            AuctionError::AuctionClaimed => "Auction has already been claimed!",
            AuctionError::AuctionAuthorityBid => "You can't bid on an auction you created!",
            AuctionError::AuctionAlreadyLastBidder => "You can't bid on an auction if you're already the last bidder!",
            AuctionError::YouAreNotTheWinner => "You Are not the winner",
            AuctionError::YouAreNotTheAuthority => "You Are not the authority",
            AuctionError::BidTooSmall => "Bid is too small.",
            AuctionError::InvalidAuthority => "You are not the authority for this auction!",
            AuctionError::PublicKeyMismatch => "Public key mismatch",
        }
    }
}

} // verus!
