use vstd::prelude::*;
use crate::ClientId;
use crate::lot::{Lot, LotView};
use crate::bid::{AuctionState, Rejection, bid_verdict, validate_bid};

verus! {

/// Countdown settings of an auction, in milliseconds.
#[derive(Clone, Copy, Debug, PartialEq, Eq, Structural)]
pub struct Timing {
    /// Time a lot stays open when it opens.
    pub lot_duration: u64,
    /// Countdown left after an accepted bid (anti-sniping window).
    pub snipe_window: u64,
    /// Hard limit on how long after opening a lot may close, however many
    /// bids extend it.
    pub max_lot_span: u64,
}

impl Timing {
    /// The anti-sniping window is no longer than a full countdown, which is
    /// no longer than the hard limit.
    pub open spec fn valid(self) -> bool {
        self.snipe_window <= self.lot_duration <= self.max_lot_span
    }

    pub fn is_valid(&self) -> (r: bool)
        ensures
            r == self.valid(),
    {
        self.snipe_window <= self.lot_duration && self.lot_duration <= self.max_lot_span
    }
}

/// A message in an auction's mailbox. `now` is the monotonic clock reading,
/// in milliseconds, when the message was taken from the mailbox.
#[derive(Clone, Copy, Debug, PartialEq, Eq, Structural)]
pub enum Command {
    Start { sender: ClientId, now: u64 },
    Cancel { sender: ClientId },
    PlaceBid { bidder: ClientId, lot: u64, amount: u32, now: u64 },
    Tick { generation: u64, now: u64 },
    HostLeft,
}

/// What handling one command did.
#[derive(Clone, Copy, Debug, PartialEq, Eq, Structural)]
pub enum Outcome {
    /// A start, cancel or host departure took effect.
    Applied,
    /// The bid is now the highest on the current lot.
    Accepted,
    /// The countdown expired: the current lot closed and the auction moved on.
    LotClosed,
    /// A superseded or early timer tick, or a departure after the end: no effect.
    Ignored,
    Rejected(Rejection),
}

/// What a lot became.
#[derive(Clone, Copy, Debug, PartialEq, Eq, Structural)]
pub enum LotOutcome {
    /// Not closed yet (or the auction was cancelled before it closed).
    Open,
    Sold { bidder: ClientId, price: u32 },
    /// Closed without any bid: unsold, not sold at the floor.
    Unsold,
}

/// The mathematical state of an auction.
pub struct AuctionView {
    pub host: ClientId,
    pub lots: Seq<LotView>,
    pub current: nat,
    pub opened_at: u64,
    pub deadline: u64,
    pub generation: u64,
    pub state: AuctionState,
    pub timing: Timing,
}

pub open spec fn sat_add_spec(a: u64, b: u64) -> u64 {
    if a + b > u64::MAX { u64::MAX } else { (a + b) as u64 }
}

pub open spec fn min_spec(a: u64, b: u64) -> u64 {
    if a <= b { a } else { b }
}

/// The next timer generation; it stays at the top once there.
pub open spec fn next_gen(g: u64) -> u64 {
    if g < u64::MAX { (g + 1) as u64 } else { g }
}

impl AuctionView {
    pub open spec fn current_lot(self) -> LotView {
        self.lots[self.current as int]
    }

    /// Well-formed: a lot is current whenever one is open or closing.
    pub open spec fn wf(self) -> bool {
        &&& (self.state == AuctionState::LotOpen || self.state == AuctionState::LotClosing)
            ==> self.current < self.lots.len()
        &&& self.current <= self.lots.len()
        &&& self.timing.valid()
        &&& forall|i: int| 0 <= i < self.lots.len() && (i > self.current || self.state == AuctionState::Pending)
            ==> (#[trigger] self.lots[i]).is_fresh()
    }

    /// Deadline after an accepted bid at `now`: the anti-sniping window,
    /// capped at the lot's hard limit.
    pub open spec fn extended_deadline(self, now: u64) -> u64 {
        min_spec(
            sat_add_spec(now, self.timing.snipe_window),
            sat_add_spec(self.opened_at, self.timing.max_lot_span),
        )
    }

    /// Lot `i` opens at `now`: at its floor with no bidder, with a full
    /// countdown and a fresh timer.
    pub open spec fn open_lot(self, i: nat, now: u64) -> AuctionView {
        AuctionView {
            lots: self.lots.update(i as int, LotView::fresh(self.lots[i as int].items, self.lots[i as int].floor)),
            current: i,
            opened_at: now,
            deadline: sat_add_spec(now, self.timing.lot_duration),
            generation: next_gen(self.generation),
            state: AuctionState::LotOpen,
            ..self
        }
    }

    /// The current lot closes: its highest bid becomes final.
    pub open spec fn close(self) -> AuctionView {
        AuctionView { state: AuctionState::LotClosing, ..self }
    }

    /// From a closing lot to the next lot, or to the end.
    pub open spec fn advance(self, now: u64) -> AuctionView {
        if self.current + 1 < self.lots.len() {
            self.open_lot(self.current + 1, now)
        } else {
            AuctionView { state: AuctionState::Completed, ..self }
        }
    }

    pub open spec fn cancelled(self) -> AuctionView {
        AuctionView { state: AuctionState::Cancelled, ..self }
    }

    /// The current lot gets a new leader, and the countdown is reset.
    pub open spec fn with_bid(self, bidder: ClientId, amount: u32, now: u64) -> AuctionView {
        AuctionView {
            lots: self.lots.update(self.current as int, self.current_lot().with_bid(bidder, amount)),
            deadline: self.extended_deadline(now),
            generation: next_gen(self.generation),
            ..self
        }
    }

    /// Whether a tick of timer `generation` at `now` closes the current lot.
    pub open spec fn tick_fires(self, generation: u64, now: u64) -> bool {
        self.state == AuctionState::LotOpen && generation == self.generation && now >= self.deadline
    }

    /// What lot `i` became.
    pub open spec fn lot_outcome(self, i: int) -> LotOutcome {
        if 0 <= i < self.lots.len() && (i < self.current || (i == self.current && (
            self.state == AuctionState::LotClosing || self.state == AuctionState::Completed))) {
            match self.lots[i].highest_bidder {
                Some(b) => LotOutcome::Sold { bidder: b, price: self.lots[i].highest_bid },
                None => LotOutcome::Unsold,
            }
        } else {
            LotOutcome::Open
        }
    }
}

/// One step of the auction's state machine: the state after handling `c`, and
/// what is reported back.
pub open spec fn step(a: AuctionView, c: Command) -> (AuctionView, Outcome) {
    match c {
        Command::Start { sender, now } => {
            if sender != a.host {
                (a, Outcome::Rejected(Rejection::NotHost))
            } else if a.state.is_terminal() {
                (a, Outcome::Rejected(Rejection::AuctionClosed))
            } else if a.state != AuctionState::Pending {
                (a, Outcome::Rejected(Rejection::AlreadyStarted))
            } else if a.lots.len() == 0 {
                (AuctionView { state: AuctionState::Completed, ..a }, Outcome::Applied)
            } else {
                (a.open_lot(0, now), Outcome::Applied)
            }
        },
        Command::Cancel { sender } => {
            if sender != a.host {
                (a, Outcome::Rejected(Rejection::NotHost))
            } else if a.state.is_terminal() {
                (a, Outcome::Rejected(Rejection::AuctionClosed))
            } else {
                (a.cancelled(), Outcome::Applied)
            }
        },
        Command::HostLeft => {
            if a.state.is_terminal() {
                (a, Outcome::Ignored)
            } else {
                (a.cancelled(), Outcome::Applied)
            }
        },
        Command::PlaceBid { bidder, lot, amount, now } => {
            if a.state.is_terminal() {
                (a, Outcome::Rejected(Rejection::AuctionClosed))
            } else if lot != a.current {
                (a, Outcome::Rejected(Rejection::AuctionNotOpen))
            } else {
                match bid_verdict(a.state, a.current_lot(), amount) {
                    Err(r) => (a, Outcome::Rejected(r)),
                    Ok(_) => (a.with_bid(bidder, amount, now), Outcome::Accepted),
                }
            }
        },
        Command::Tick { generation, now } => {
            if a.tick_fires(generation, now) {
                (a.close().advance(now), Outcome::LotClosed)
            } else {
                (a, Outcome::Ignored)
            }
        },
    }
}

pub fn sat_add(a: u64, b: u64) -> (r: u64)
    ensures
        r == sat_add_spec(a, b),
{
    if a <= u64::MAX - b { a + b } else { u64::MAX }
}

/// A state snapshot, as broadcast to every subscriber after a transition.
#[derive(Clone, Copy, Debug, PartialEq, Eq, Structural)]
pub struct Snapshot {
    pub lot_index: u64,
    pub highest_bid: u32,
    pub highest_bidder: Option<ClientId>,
    pub time_remaining: u64,
    pub state: AuctionState,
}

/// One auction: its host, its lots in bidding order, the current lot, the
/// countdown and the lifecycle state. Only its actor mutates it.
pub struct Auction {
    host: ClientId,
    lots: Vec<Lot>,
    current: usize,
    opened_at: u64,
    deadline: u64,
    generation: u64,
    state: AuctionState,
    timing: Timing,
}

impl View for Auction {
    type V = AuctionView;

    closed spec fn view(&self) -> AuctionView {
        AuctionView {
            host: self.host,
            lots: self.lots@.map_values(|l: Lot| l@),
            current: self.current as nat,
            opened_at: self.opened_at,
            deadline: self.deadline,
            generation: self.generation,
            state: self.state,
            timing: self.timing,
        }
    }
}

/// The snapshot of `a` at time `now`.
pub open spec fn snapshot_of(a: AuctionView, now: u64) -> Snapshot {
    Snapshot {
        lot_index: a.current as u64,
        highest_bid: if a.current < a.lots.len() { a.current_lot().highest_bid } else { 0 },
        highest_bidder: if a.current < a.lots.len() { a.current_lot().highest_bidder } else { None },
        time_remaining: if a.state == AuctionState::LotOpen && now < a.deadline {
            (a.deadline - now) as u64
        } else {
            0
        },
        state: a.state,
    }
}

impl Auction {
    /// A pending auction over `lots`, hosted by `host`.
    pub fn new(host: ClientId, lots: Vec<Lot>, timing: Timing) -> (r: Auction)
        requires
            timing.valid(),
            forall|i: int| 0 <= i < lots@.len() ==> (#[trigger] lots@[i])@.is_fresh(),
        ensures
            r@ == (AuctionView {
                host,
                lots: lots@.map_values(|l: Lot| l@),
                current: 0,
                opened_at: 0,
                deadline: 0,
                generation: 0,
                state: AuctionState::Pending,
                timing,
            }),
            r@.wf(),
    {
        Auction { host, lots, current: 0, opened_at: 0, deadline: 0, generation: 0, state: AuctionState::Pending, timing }
    }

    fn bump_generation(&mut self)
        ensures
            final(self)@ == (AuctionView { generation: next_gen(old(self).generation), ..old(self)@ }),
    {
        if self.generation < u64::MAX {
            self.generation = self.generation + 1;
        }
    }

    fn open_lot(&mut self, i: usize, now: u64)
        requires
            i < old(self)@.lots.len(),
        ensures
            final(self)@ == old(self)@.open_lot(i as nat, now),
    {
        let ghost before = self@;
        self.lots[i].reset();
        assert(self@.lots =~= before.lots.update(i as int, LotView::fresh(before.lots[i as int].items, before.lots[i as int].floor)));
        self.current = i;
        self.opened_at = now;
        self.deadline = sat_add(now, self.timing.lot_duration);
        self.bump_generation();
        self.state = AuctionState::LotOpen;
    }

    /// The open lot closes; its highest bid is final.
    fn close_current_lot(&mut self)
        ensures
            final(self)@ == old(self)@.close(),
    {
        self.state = AuctionState::LotClosing;
    }

    /// Moves from the closed lot to the next one, or completes the auction.
    fn advance_lot(&mut self, now: u64)
        requires
            old(self)@.wf(),
            old(self).state == AuctionState::LotClosing,
        ensures
            final(self)@ == old(self)@.advance(now),
            final(self)@.wf(),
    {
        assert(self.current < self.lots@.len());
        if self.current < self.lots.len() - 1 {
            let next = self.current + 1;
            self.open_lot(next, now);
        } else {
            self.state = AuctionState::Completed;
        }
    }

    /// The current lot gets `bidder` as its leader at `amount`.
    fn record_bid(&mut self, bidder: ClientId, amount: u32, now: u64)
        requires
            old(self)@.wf(),
            old(self).current < old(self).lots.len(),
        ensures
            final(self)@ == old(self)@.with_bid(bidder, amount, now),
    {
        let i = self.current;
        let ghost before = self@;
        self.lots[i].set_leader(bidder, amount);
        let window_end = sat_add(now, self.timing.snipe_window);
        let hard_end = sat_add(self.opened_at, self.timing.max_lot_span);
        self.deadline = if window_end <= hard_end { window_end } else { hard_end };
        self.bump_generation();
        assert(self@.lots =~= before.lots.update(i as int, before.current_lot().with_bid(bidder, amount)));
    }

    /// Handles one mailbox message; the only way the auction changes.
    pub fn handle(&mut self, c: Command) -> (r: Outcome)
        requires
            old(self)@.wf(),
        ensures
            (final(self)@, r) == step(old(self)@, c),
            final(self)@.wf(),
    {
        match c {
            Command::Start { sender, now } => {
                if sender != self.host {
                    Outcome::Rejected(Rejection::NotHost)
                } else if self.state == AuctionState::Completed || self.state == AuctionState::Cancelled {
                    Outcome::Rejected(Rejection::AuctionClosed)
                } else if self.state != AuctionState::Pending {
                    Outcome::Rejected(Rejection::AlreadyStarted)
                } else if self.lots.len() == 0 {
                    self.state = AuctionState::Completed;
                    Outcome::Applied
                } else {
                    self.open_lot(0, now);
                    Outcome::Applied
                }
            },
            Command::Cancel { sender } => {
                if sender != self.host {
                    Outcome::Rejected(Rejection::NotHost)
                } else if self.state == AuctionState::Completed || self.state == AuctionState::Cancelled {
                    Outcome::Rejected(Rejection::AuctionClosed)
                } else {
                    self.state = AuctionState::Cancelled;
                    Outcome::Applied
                }
            },
            Command::HostLeft => {
                if self.state == AuctionState::Completed || self.state == AuctionState::Cancelled {
                    Outcome::Ignored
                } else {
                    self.state = AuctionState::Cancelled;
                    Outcome::Applied
                }
            },
            Command::PlaceBid { bidder, lot, amount, now } => {
                if self.state == AuctionState::Completed || self.state == AuctionState::Cancelled {
                    Outcome::Rejected(Rejection::AuctionClosed)
                } else if lot != self.current as u64 || self.current >= self.lots.len() {
                    Outcome::Rejected(Rejection::AuctionNotOpen)
                } else {
                    let i = self.current;
                    match validate_bid(self.state, &self.lots[i], bidder, amount) {
                        Err(r) => Outcome::Rejected(r),
                        Ok(()) => {
                            self.record_bid(bidder, amount, now);
                            Outcome::Accepted
                        },
                    }
                }
            },
            Command::Tick { generation, now } => {
                if self.state == AuctionState::LotOpen && generation == self.generation && now >= self.deadline {
                    self.close_current_lot();
                    self.advance_lot(now);
                    Outcome::LotClosed
                } else {
                    Outcome::Ignored
                }
            },
        }
    }

    /// What lot `i` became.
    pub fn lot_outcome(&self, i: usize) -> (r: LotOutcome)
        ensures
            r == self@.lot_outcome(i as int),
    {
        if i < self.lots.len() && (i < self.current || (i == self.current && (
            self.state == AuctionState::LotClosing || self.state == AuctionState::Completed))) {
            match self.lots[i].highest_bidder() {
                Some(b) => LotOutcome::Sold { bidder: b, price: self.lots[i].highest_bid() },
                None => LotOutcome::Unsold,
            }
        } else {
            LotOutcome::Open
        }
    }

    /// The state snapshot to broadcast at time `now`.
    pub fn snapshot(&self, now: u64) -> (r: Snapshot)
        ensures
            r == snapshot_of(self@, now),
    {
        let has_lot = self.current < self.lots.len();
        Snapshot {
            lot_index: self.current as u64,
            highest_bid: if has_lot { self.lots[self.current].highest_bid() } else { 0 },
            highest_bidder: if has_lot { self.lots[self.current].highest_bidder() } else { None },
            time_remaining: if self.state == AuctionState::LotOpen && now < self.deadline {
                self.deadline - now
            } else {
                0
            },
            state: self.state,
        }
    }

    pub fn state(&self) -> (r: AuctionState)
        ensures
            r == self@.state,
    {
        self.state
    }

    pub fn deadline(&self) -> (r: u64)
        ensures
            r == self@.deadline,
    {
        self.deadline
    }

    pub fn generation(&self) -> (r: u64)
        ensures
            r == self@.generation,
    {
        self.generation
    }

    /// Lot `i`, if there is one.
    pub fn lot(&self, i: usize) -> (r: Option<&Lot>)
        ensures
            match r {
                Some(l) => i < self@.lots.len() && l@ == self@.lots[i as int],
                None => i >= self@.lots.len(),
            },
    {
        if i < self.lots.len() { Some(&self.lots[i]) } else { None }
    }

    pub fn host(&self) -> (r: ClientId)
        ensures
            r == self@.host,
    {
        self.host
    }

    /// The timer to start after a command, given the generation that was
    /// armed before it: one for the current countdown when a lot is open and
    /// the countdown was re-armed, as (generation, deadline).
    pub fn timer_to_arm(&self, armed_before: u64) -> (r: Option<(u64, u64)>)
        ensures
            r == (if self@.state == AuctionState::LotOpen && self@.generation != armed_before {
                Some((self@.generation, self@.deadline))
            } else {
                None
            }),
    {
        if self.state == AuctionState::LotOpen && self.generation != armed_before {
            Some((self.generation, self.deadline))
        } else {
            None
        }
    }

    pub fn current_lot_index(&self) -> (r: usize)
        ensures
            r as nat == self@.current,
    {
        self.current
    }
}

} // verus!
