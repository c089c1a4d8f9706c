use vstd::prelude::*;
use crate::ClientId;
use crate::lot::{Lot, LotView};

verus! {

/// Lifecycle of an auction.
#[derive(Clone, Copy, Debug, PartialEq, Eq, Structural)]
pub enum AuctionState {
    Pending,
    LotOpen,
    LotClosing,
    Completed,
    Cancelled,
}

impl AuctionState {
    pub open spec fn is_terminal(self) -> bool {
        self == AuctionState::Completed || self == AuctionState::Cancelled
    }
}

/// Why a request was turned down.
#[derive(Clone, Copy, Debug, PartialEq, Eq, Structural)]
pub enum Rejection {
    /// No lot is open for bidding (or the bid names a lot that is not open).
    AuctionNotOpen,
    /// The bid does not strictly raise the current highest bid.
    BidTooLow,
    /// The auction has completed or was cancelled.
    AuctionClosed,
    /// A control command came from someone other than the host.
    NotHost,
    /// A start command reached an auction that has already started.
    AlreadyStarted,
    /// No auction has the given identifier.
    NotFound,
}

/// The bid rules, in order: a lot must be open, and the amount must strictly
/// exceed the current highest bid (a leader re-bidding the same amount is too low).
pub open spec fn bid_verdict(state: AuctionState, lot: LotView, amount: u32) -> Result<(), Rejection> {
    if state != AuctionState::LotOpen {
        Err(Rejection::AuctionNotOpen)
    } else if amount <= lot.highest_bid {
        Err(Rejection::BidTooLow)
    } else {
        Ok(())
    }
}

/// Decides whether `bidder` may bid `amount` on `lot`; changes nothing.
pub fn validate_bid(state: AuctionState, lot: &Lot, _bidder: ClientId, amount: u32) -> (r: Result<(), Rejection>)
    ensures
        r == bid_verdict(state, lot@, amount),
{
    if state != AuctionState::LotOpen {
        Err(Rejection::AuctionNotOpen)
    } else if amount <= lot.highest_bid() {
        Err(Rejection::BidTooLow)
    } else {
        Ok(())
    }
}

} // verus!
