use vstd::prelude::*;
use crate::ClientId;

verus! {

/// What a lot is, mathematically: its fixed items and its bid state.
pub struct LotView {
    pub items: Seq<u32>,
    pub floor: u32,
    pub highest_bid: u32,
    pub highest_bidder: Option<ClientId>,
}

/// One item bundle up for bid. The items are fixed at creation; the highest
/// bid starts at the floor and only ever rises.
pub struct Lot {
    items: Vec<u32>,
    floor: u32,
    highest_bid: u32,
    highest_bidder: Option<ClientId>,
}

impl View for Lot {
    type V = LotView;

    closed spec fn view(&self) -> LotView {
        LotView {
            items: self.items@,
            floor: self.floor,
            highest_bid: self.highest_bid,
            highest_bidder: self.highest_bidder,
        }
    }
}

impl LotView {
    /// A lot nobody has bid on yet.
    pub open spec fn fresh(items: Seq<u32>, floor: u32) -> LotView {
        LotView { items, floor, highest_bid: floor, highest_bidder: None }
    }

    /// Not bid on yet: at its floor, with no bidder.
    pub open spec fn is_fresh(self) -> bool {
        self.highest_bid == self.floor && self.highest_bidder is None
    }

    /// The same lot with a new leader.
    pub open spec fn with_bid(self, bidder: ClientId, amount: u32) -> LotView {
        LotView { highest_bid: amount, highest_bidder: Some(bidder), ..self }
    }
}

impl Lot {
    pub fn new(items: Vec<u32>, floor: u32) -> (r: Lot)
        ensures
            r@ == LotView::fresh(items@, floor),
    {
        Lot { items, floor, highest_bid: floor, highest_bidder: None }
    }

    /// Whether nobody has bid on the lot yet.
    pub fn is_fresh(&self) -> (r: bool)
        ensures
            r == self@.is_fresh(),
    {
        self.highest_bid == self.floor && self.highest_bidder.is_none()
    }

    pub fn highest_bid(&self) -> (r: u32)
        ensures
            r == self@.highest_bid,
    {
        self.highest_bid
    }

    pub fn highest_bidder(&self) -> (r: Option<ClientId>)
        ensures
            r == self@.highest_bidder,
    {
        self.highest_bidder
    }

    pub fn floor(&self) -> (r: u32)
        ensures
            r == self@.floor,
    {
        self.floor
    }

    pub fn items(&self) -> (r: &Vec<u32>)
        ensures
            r@ == self@.items,
    {
        &self.items
    }

    /// `bidder` leads at `amount`.
    pub(crate) fn set_leader(&mut self, bidder: ClientId, amount: u32)
        ensures
            final(self)@ == old(self)@.with_bid(bidder, amount),
    {
        self.highest_bid = amount;
        self.highest_bidder = Some(bidder);
    }

    /// Back to the floor with no bidder, as when the lot opens.
    pub(crate) fn reset(&mut self)
        ensures
            final(self)@ == LotView::fresh(old(self)@.items, old(self)@.floor),
    {
        self.highest_bid = self.floor;
        self.highest_bidder = None;
    }
}

} // verus!
