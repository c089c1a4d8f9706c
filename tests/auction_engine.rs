use bramble_auction::auction::{Auction, Command, LotOutcome, Outcome, Timing};
use bramble_auction::bid::{validate_bid, AuctionState, Rejection};
use bramble_auction::client::ClientView;
use bramble_auction::{ClientId, Lot};

const HOST: ClientId = ClientId(1);
const A: ClientId = ClientId(2);
const B: ClientId = ClientId(3);

fn timing() -> Timing {
    Timing { lot_duration: 5000, snipe_window: 2000, max_lot_span: 10000 }
}

fn two_lots() -> Auction {
    Auction::new(HOST, vec![Lot::new(vec![7], 10), Lot::new(vec![8, 9], 20)], timing())
}

fn started() -> Auction {
    let mut a = two_lots();
    assert_eq!(a.handle(Command::Start { sender: HOST, now: 0 }), Outcome::Applied);
    a
}

fn bid(a: &mut Auction, who: ClientId, lot: u64, amount: u32, now: u64) -> Outcome {
    a.handle(Command::PlaceBid { bidder: who, lot, amount, now })
}

fn expire(a: &mut Auction) -> Outcome {
    let (generation, now) = (a.generation(), a.deadline());
    a.handle(Command::Tick { generation, now })
}

#[test]
fn two_lot_scenario() {
    let mut a = started();
    assert_eq!(a.state(), AuctionState::LotOpen);
    assert_eq!(a.deadline(), 5000);
    let first_timer = a.generation();

    assert_eq!(bid(&mut a, A, 0, 15, 1000), Outcome::Accepted);
    assert_eq!(a.lot(0).unwrap().highest_bid(), 15);
    assert_eq!(a.lot(0).unwrap().highest_bidder(), Some(A));
    assert_eq!(a.deadline(), 3000);

    assert_eq!(bid(&mut a, B, 0, 12, 2000), Outcome::Rejected(Rejection::BidTooLow));
    assert_eq!(a.lot(0).unwrap().highest_bid(), 15);

    let (generation, now) = (a.generation(), 3000);
    assert_eq!(a.handle(Command::Tick { generation, now }), Outcome::LotClosed);
    assert_eq!(a.lot_outcome(0), LotOutcome::Sold { bidder: A, price: 15 });
    assert_eq!(a.current_lot_index(), 1);
    assert_eq!(a.state(), AuctionState::LotOpen);
    assert_eq!(a.lot(1).unwrap().highest_bid(), 20);
    assert_eq!(a.deadline(), 8000);

    // the timer armed for the first countdown fires late and is ignored
    assert_eq!(a.handle(Command::Tick { generation: first_timer, now: 5000 }), Outcome::Ignored);

    let (generation, now) = (a.generation(), 8000);
    assert_eq!(a.handle(Command::Tick { generation, now }), Outcome::LotClosed);
    assert_eq!(a.state(), AuctionState::Completed);
    assert_eq!(a.lot_outcome(1), LotOutcome::Unsold);
    assert_eq!(a.lot(1).unwrap().highest_bid(), 20);
}

#[test]
fn highest_bid_is_max_of_accepted() {
    let mut a = started();
    let amounts = [11u32, 30, 25, 30, 31, 12];
    let mut accepted = Vec::new();
    let mut last = a.lot(0).unwrap().highest_bid();
    for (k, amount) in amounts.iter().enumerate() {
        if bid(&mut a, ClientId(10 + k as u128), 0, *amount, 100) == Outcome::Accepted {
            accepted.push(*amount);
        }
        assert!(a.lot(0).unwrap().highest_bid() >= last);
        last = a.lot(0).unwrap().highest_bid();
    }
    assert_eq!(accepted, vec![11, 30, 31]);
    assert_eq!(a.lot(0).unwrap().highest_bid(), 31);
}

#[test]
fn low_bids_rejected_in_any_order() {
    let mut a = started();
    assert_eq!(bid(&mut a, A, 0, 50, 10), Outcome::Accepted);
    let before = a.snapshot(10);
    for amount in [50u32, 10, 49, 0, 50] {
        assert_eq!(bid(&mut a, B, 0, amount, 20), Outcome::Rejected(Rejection::BidTooLow));
    }
    // the leader re-bidding the same amount is too low as well
    assert_eq!(bid(&mut a, A, 0, 50, 20), Outcome::Rejected(Rejection::BidTooLow));
    assert_eq!(a.snapshot(10), before);
}

#[test]
fn bid_before_tick_is_sold_bid_after_is_not_open() {
    let mut a = started();
    assert_eq!(bid(&mut a, B, 0, 40, 4000), Outcome::Accepted);
    assert_eq!(expire(&mut a), Outcome::LotClosed);
    assert_eq!(a.lot_outcome(0), LotOutcome::Sold { bidder: B, price: 40 });
    assert_eq!(bid(&mut a, A, 0, 99, 6100), Outcome::Rejected(Rejection::AuctionNotOpen));
    assert_eq!(a.lot_outcome(0), LotOutcome::Sold { bidder: B, price: 40 });
}

#[test]
fn all_lots_closed_completes() {
    let mut a = started();
    assert_eq!(expire(&mut a), Outcome::LotClosed);
    assert_eq!(expire(&mut a), Outcome::LotClosed);
    assert_eq!(a.state(), AuctionState::Completed);
    assert_eq!(a.lot_outcome(0), LotOutcome::Unsold);
    assert_eq!(bid(&mut a, A, 1, 1000, 9000), Outcome::Rejected(Rejection::AuctionClosed));
    assert_eq!(a.handle(Command::Cancel { sender: HOST }), Outcome::Rejected(Rejection::AuctionClosed));
    assert_eq!(a.handle(Command::HostLeft), Outcome::Ignored);
    assert_eq!(a.state(), AuctionState::Completed);
}

#[test]
fn cancel_by_stranger_is_not_host() {
    let mut a = started();
    let before = a.snapshot(0);
    assert_eq!(a.handle(Command::Cancel { sender: A }), Outcome::Rejected(Rejection::NotHost));
    assert_eq!(a.snapshot(0), before);
    assert_eq!(a.handle(Command::Cancel { sender: HOST }), Outcome::Applied);
    assert_eq!(a.state(), AuctionState::Cancelled);
    assert_eq!(a.handle(Command::Cancel { sender: A }), Outcome::Rejected(Rejection::NotHost));
    assert_eq!(bid(&mut a, A, 0, 11, 1), Outcome::Rejected(Rejection::AuctionClosed));
    assert_eq!(a.lot_outcome(0), LotOutcome::Open);
}

#[test]
fn host_leaving_cancels() {
    let mut a = started();
    assert_eq!(a.handle(Command::HostLeft), Outcome::Applied);
    assert_eq!(a.state(), AuctionState::Cancelled);
}

#[test]
fn start_rules() {
    let mut a = two_lots();
    assert_eq!(bid(&mut a, A, 0, 11, 0), Outcome::Rejected(Rejection::AuctionNotOpen));
    assert_eq!(a.handle(Command::Start { sender: A, now: 0 }), Outcome::Rejected(Rejection::NotHost));
    assert_eq!(a.state(), AuctionState::Pending);
    assert_eq!(a.handle(Command::Start { sender: HOST, now: 100 }), Outcome::Applied);
    assert_eq!(a.deadline(), 5100);
    assert_eq!(a.handle(Command::Start { sender: HOST, now: 200 }), Outcome::Rejected(Rejection::AlreadyStarted));

    let mut empty = Auction::new(HOST, Vec::new(), timing());
    assert_eq!(empty.handle(Command::Start { sender: HOST, now: 0 }), Outcome::Applied);
    assert_eq!(empty.state(), AuctionState::Completed);
}

#[test]
fn early_or_stale_tick_is_ignored() {
    let mut a = started();
    let generation = a.generation();
    assert_eq!(a.handle(Command::Tick { generation, now: 4999 }), Outcome::Ignored);
    assert_eq!(a.handle(Command::Tick { generation: generation + 1, now: 5000 }), Outcome::Ignored);
    assert_eq!(a.state(), AuctionState::LotOpen);
    assert_eq!(a.current_lot_index(), 0);
}

#[test]
fn anti_snipe_extension_is_capped() {
    let mut a = started();
    assert_eq!(bid(&mut a, A, 0, 11, 4900), Outcome::Accepted);
    assert_eq!(a.deadline(), 6900);
    assert_eq!(bid(&mut a, B, 0, 12, 6800), Outcome::Accepted);
    assert_eq!(a.deadline(), 8800);
    assert_eq!(bid(&mut a, A, 0, 13, 8700), Outcome::Accepted);
    assert_eq!(a.deadline(), 10000);
}

#[test]
fn wrong_lot_is_not_open() {
    let mut a = started();
    assert_eq!(bid(&mut a, A, 1, 500, 10), Outcome::Rejected(Rejection::AuctionNotOpen));
    assert_eq!(a.lot(1).unwrap().highest_bid(), 20);
}

#[test]
fn validator_rules() {
    let lot = Lot::new(vec![1, 2], 10);
    assert_eq!(validate_bid(AuctionState::LotOpen, &lot, A, 11), Ok(()));
    assert_eq!(validate_bid(AuctionState::LotOpen, &lot, A, 10), Err(Rejection::BidTooLow));
    assert_eq!(validate_bid(AuctionState::LotClosing, &lot, A, 11), Err(Rejection::AuctionNotOpen));
    assert_eq!(validate_bid(AuctionState::Pending, &lot, A, 5), Err(Rejection::AuctionNotOpen));
}

#[test]
fn snapshot_contents() {
    let mut a = started();
    assert_eq!(bid(&mut a, A, 0, 15, 1000), Outcome::Accepted);
    let s = a.snapshot(1500);
    assert_eq!(s.lot_index, 0);
    assert_eq!(s.highest_bid, 15);
    assert_eq!(s.highest_bidder, Some(A));
    assert_eq!(s.time_remaining, 1500);
    assert_eq!(s.state, AuctionState::LotOpen);
    assert_eq!(a.snapshot(4000).time_remaining, 0);
}

#[test]
fn redelivered_snapshot_is_no_op() {
    let mut a = started();
    let mut view = ClientView::new();
    assert_eq!(view.latest, None);
    let s = a.snapshot(0);
    view.apply(s);
    let once = view;
    view.apply(s);
    assert_eq!(view, once);
    assert_eq!(bid(&mut a, A, 0, 15, 1000), Outcome::Accepted);
    let newer = a.snapshot(1000);
    view.apply(newer);
    assert_eq!(view.latest, Some(newer));
}

#[test]
fn deadline_saturates_at_clock_end() {
    let mut a = two_lots();
    let late = u64::MAX - 10;
    assert_eq!(a.handle(Command::Start { sender: HOST, now: late }), Outcome::Applied);
    assert_eq!(a.deadline(), u64::MAX);
    assert_eq!(bid(&mut a, A, 0, 11, late + 5), Outcome::Accepted);
    assert_eq!(a.deadline(), u64::MAX);
    assert_eq!(expire(&mut a), Outcome::LotClosed);
    assert_eq!(a.current_lot_index(), 1);
}

#[test]
fn timer_armed_only_when_countdown_changes() {
    let mut a = two_lots();
    let armed = a.generation();
    assert_eq!(a.timer_to_arm(armed), None);
    assert_eq!(a.handle(Command::Start { sender: HOST, now: 0 }), Outcome::Applied);
    assert_eq!(a.timer_to_arm(armed), Some((a.generation(), 5000)));
    let armed = a.generation();
    assert_eq!(bid(&mut a, A, 0, 5, 10), Outcome::Rejected(Rejection::BidTooLow));
    assert_eq!(a.timer_to_arm(armed), None);
    assert_eq!(bid(&mut a, A, 0, 50, 10), Outcome::Accepted);
    assert_eq!(a.timer_to_arm(armed), Some((a.generation(), 2010)));
    assert_eq!(a.handle(Command::Tick { generation: armed, now: 5000 }), Outcome::Ignored);
}

#[test]
fn lot_accessor_bounds() {
    let a = two_lots();
    assert_eq!(a.lot(1).unwrap().floor(), 20);
    assert_eq!(a.lot(1).unwrap().items(), &vec![8, 9]);
    assert!(a.lot(1).unwrap().is_fresh());
    assert!(a.lot(2).is_none());
    assert_eq!(a.host(), HOST);
}
