use vstd::prelude::*;
use crate::ClientId;
use crate::bid::{AuctionState, Rejection};
use crate::auction::{AuctionView, Command, LotOutcome, Outcome, step};

verus! {

/// The state after handling the commands of `cs` in order.
pub open spec fn run(a: AuctionView, cs: Seq<Command>) -> AuctionView
    decreases cs.len(),
{
    if cs.len() == 0 {
        a
    } else {
        run(step(a, cs[0]).0, cs.drop_first())
    }
}

/// The amounts of the bids of `cs` that were accepted, in order.
pub open spec fn accepted_amounts(a: AuctionView, cs: Seq<Command>) -> Seq<u32>
    decreases cs.len(),
{
    if cs.len() == 0 {
        Seq::empty()
    } else {
        let (b, o) = step(a, cs[0]);
        let rest = accepted_amounts(b, cs.drop_first());
        if o == Outcome::Accepted {
            seq![cs[0]->PlaceBid_amount] + rest
        } else {
            rest
        }
    }
}

/// The bidder of the last bid of `cs` that was accepted, if any was.
pub open spec fn last_accepted_bidder(a: AuctionView, cs: Seq<Command>) -> Option<ClientId>
    decreases cs.len(),
{
    if cs.len() == 0 {
        None
    } else {
        let (b, o) = step(a, cs[0]);
        match last_accepted_bidder(b, cs.drop_first()) {
            Some(c) => Some(c),
            None => if o == Outcome::Accepted { Some(cs[0]->PlaceBid_bidder) } else { None },
        }
    }
}

/// The largest of `h` and the values of `s`.
pub open spec fn max_with(h: u32, s: Seq<u32>) -> u32
    decreases s.len(),
{
    if s.len() == 0 {
        h
    } else {
        max_with(if s[0] > h { s[0] } else { h }, s.drop_first())
    }
}

pub open spec fn all_bids(cs: Seq<Command>) -> bool {
    forall|i: int| 0 <= i < cs.len() ==> (#[trigger] cs[i]) is PlaceBid
}

pub open spec fn highest(a: AuctionView) -> u32 {
    a.current_lot().highest_bid
}

/// Handling the commands of `s1 + s2` is handling `s1`, then `s2`.
pub proof fn lemma_run_append(a: AuctionView, s1: Seq<Command>, s2: Seq<Command>)
    ensures
        run(a, s1 + s2) == run(run(a, s1), s2),
    decreases s1.len(),
{
    if s1.len() == 0 {
        assert(s1 + s2 =~= s2);
    } else {
        assert((s1 + s2).drop_first() =~= s1.drop_first() + s2);
        lemma_run_append(step(a, s1[0]).0, s1.drop_first(), s2);
    }
}

/// A bid never moves the auction to another lot nor lowers the highest bid;
/// when accepted, its amount exceeded the old highest bid and is the new one.
pub proof fn lemma_bid_step(a: AuctionView, c: Command)
    requires
        a.wf(),
        a.current < a.lots.len(),
        c is PlaceBid,
    ensures
        step(a, c).0.wf(),
        step(a, c).0.current == a.current,
        step(a, c).0.lots.len() == a.lots.len(),
        highest(a) <= highest(step(a, c).0),
        step(a, c).1 == Outcome::Accepted ==> (
            highest(step(a, c).0) == c->PlaceBid_amount && c->PlaceBid_amount > highest(a)
            && step(a, c).0.current_lot().highest_bidder == Some(c->PlaceBid_bidder)),
        step(a, c).1 != Outcome::Accepted ==> step(a, c).0 == a,
{
}

/// On one lot, whatever bids arrive, the recorded highest bid is the largest
/// of the starting bid (the floor, on a lot nobody has bid on) and the
/// accepted amounts; the accepted amounts strictly rise; and the leader is
/// the bidder of the last accepted bid, or the starting leader if none was.
pub proof fn lemma_highest_is_max_accepted(a: AuctionView, cs: Seq<Command>)
    requires
        a.wf(),
        a.current < a.lots.len(),
        all_bids(cs),
    ensures
        run(a, cs).wf(),
        run(a, cs).current == a.current,
        run(a, cs).lots.len() == a.lots.len(),
        highest(a) <= highest(run(a, cs)),
        highest(run(a, cs)) == max_with(highest(a), accepted_amounts(a, cs)),
        forall|k: int| 0 <= k < accepted_amounts(a, cs).len() ==> #[trigger] accepted_amounts(a, cs)[k] > highest(a),
        forall|k: int, m: int| 0 <= k < m < accepted_amounts(a, cs).len() ==>
            #[trigger] accepted_amounts(a, cs)[k] < #[trigger] accepted_amounts(a, cs)[m],
        run(a, cs).current_lot().highest_bidder == match last_accepted_bidder(a, cs) {
            Some(c) => Some(c),
            None => a.current_lot().highest_bidder,
        },
    decreases cs.len(),
{
    if cs.len() > 0 {
        assert(cs[0] is PlaceBid);
        lemma_bid_step(a, cs[0]);
        let b = step(a, cs[0]).0;
        let rest = cs.drop_first();
        assert(all_bids(rest)) by {
            assert forall|i: int| 0 <= i < rest.len() implies (#[trigger] rest[i]) is PlaceBid by {
                assert(rest[i] == cs[i + 1]);
            }
        }
        lemma_highest_is_max_accepted(b, rest);
        let s = accepted_amounts(a, cs);
        let r = accepted_amounts(b, rest);
        if step(a, cs[0]).1 == Outcome::Accepted {
            assert(s == seq![cs[0]->PlaceBid_amount] + r);
            assert(s.drop_first() =~= r);
            assert forall|k: int| 0 <= k < s.len() implies #[trigger] s[k] > highest(a) by {
                if k > 0 {
                    assert(s[k] == r[k - 1]);
                }
            }
            assert forall|k: int, m: int| 0 <= k < m < s.len() implies #[trigger] s[k] < #[trigger] s[m] by {
                assert(s[m] == r[m - 1]);
                if k > 0 {
                    assert(s[k] == r[k - 1]);
                }
            }
        } else {
            assert(s == r);
        }
    }
}

/// On one lot, the highest bid never decreases as bids are handled: after
/// any prefix it is at most what it is after any longer prefix.
pub proof fn lemma_highest_monotone(a: AuctionView, cs: Seq<Command>, i: int, j: int)
    requires
        a.wf(),
        a.current < a.lots.len(),
        all_bids(cs),
        0 <= i <= j <= cs.len(),
    ensures
        highest(run(a, cs.take(i))) <= highest(run(a, cs.take(j))),
{
    let p = cs.take(i);
    let q = cs.subrange(i, j);
    assert(cs.take(j) =~= p + q);
    lemma_run_append(a, p, q);
    assert(all_bids(p)) by {
        assert forall|k: int| 0 <= k < p.len() implies (#[trigger] p[k]) is PlaceBid by {
            assert(p[k] == cs[k]);
        }
    }
    assert(all_bids(q)) by {
        assert forall|k: int| 0 <= k < q.len() implies (#[trigger] q[k]) is PlaceBid by {
            assert(q[k] == cs[i + k]);
        }
    }
    lemma_highest_is_max_accepted(a, p);
    lemma_highest_is_max_accepted(run(a, p), q);
}

/// A bid on the open lot that does not exceed the highest bid is rejected as
/// too low and changes nothing.
pub proof fn lemma_low_bid_rejected(a: AuctionView, bidder: ClientId, lot: u64, amount: u32, now: u64)
    requires
        a.wf(),
        lot == a.current,
        a.state == AuctionState::LotOpen,
        amount <= highest(a),
    ensures
        step(a, Command::PlaceBid { bidder, lot, amount, now })
            == (a, Outcome::Rejected(Rejection::BidTooLow)),
{
}

/// Low bids on the open lot, in whatever number and order they arrive, are
/// each rejected as too low and leave the auction as it was.
pub proof fn lemma_low_bids_any_order(a: AuctionView, cs: Seq<Command>)
    requires
        a.wf(),
        a.state == AuctionState::LotOpen,
        forall|k: int| 0 <= k < cs.len() ==> {
            &&& (#[trigger] cs[k]) is PlaceBid
            &&& cs[k]->PlaceBid_lot == a.current
            &&& cs[k]->PlaceBid_amount <= highest(a)
        },
    ensures
        run(a, cs) == a,
        forall|k: int| 0 <= k < cs.len() ==>
            step(run(a, cs.take(k)), #[trigger] cs[k]) == (a, Outcome::Rejected(Rejection::BidTooLow)),
{
    lemma_low_bids_prefix(a, cs);
    assert forall|k: int| 0 <= k < cs.len() implies
        step(run(a, cs.take(k)), #[trigger] cs[k]) == (a, Outcome::Rejected(Rejection::BidTooLow)) by {
        let p = cs.take(k);
        assert forall|m: int| 0 <= m < p.len() implies {
            &&& (#[trigger] p[m]) is PlaceBid
            &&& p[m]->PlaceBid_lot == a.current
            &&& p[m]->PlaceBid_amount <= highest(a)
        } by {
            assert(p[m] == cs[m]);
        }
        lemma_low_bids_prefix(a, p);
    }
}

/// Low bids on the open lot leave the auction as it was.
proof fn lemma_low_bids_prefix(a: AuctionView, cs: Seq<Command>)
    requires
        a.wf(),
        a.state == AuctionState::LotOpen,
        forall|k: int| 0 <= k < cs.len() ==> {
            &&& (#[trigger] cs[k]) is PlaceBid
            &&& cs[k]->PlaceBid_lot == a.current
            &&& cs[k]->PlaceBid_amount <= highest(a)
        },
    ensures
        run(a, cs) == a,
    decreases cs.len(),
{
    if cs.len() > 0 {
        let rest = cs.drop_first();
        assert forall|k: int| 0 <= k < rest.len() implies {
            &&& (#[trigger] rest[k]) is PlaceBid
            &&& rest[k]->PlaceBid_lot == a.current
            &&& rest[k]->PlaceBid_amount <= highest(a)
        } by {
            assert(rest[k] == cs[k + 1]);
        }
        lemma_low_bids_prefix(a, rest);
    }
}

/// An accepted bid that is in the mailbox before the tick that closes its lot
/// is the lot's sale.
pub proof fn lemma_bid_before_tick(a: AuctionView, bid: Command, tick: Command)
    requires
        a.wf(),
        bid is PlaceBid,
        step(a, bid).1 == Outcome::Accepted,
        tick is Tick,
        step(step(a, bid).0, tick).1 == Outcome::LotClosed,
    ensures
        step(step(a, bid).0, tick).0.lot_outcome(a.current as int) == (LotOutcome::Sold {
            bidder: bid->PlaceBid_bidder,
            price: bid->PlaceBid_amount,
        }),
{
    let b = step(a, bid).0;
    assert(b.lots[a.current as int] == a.current_lot().with_bid(bid->PlaceBid_bidder, bid->PlaceBid_amount));
}

/// A bid on the open lot is never refused as not open: it is accepted
/// exactly when it exceeds the highest bid, and is too low otherwise.
pub proof fn lemma_open_lot_takes_bids(a: AuctionView, bidder: ClientId, lot: u64, amount: u32, now: u64)
    requires
        a.wf(),
        a.state == AuctionState::LotOpen,
        lot == a.current,
    ensures
        step(a, Command::PlaceBid { bidder, lot, amount, now }).1 == (if amount > highest(a) {
            Outcome::Accepted
        } else {
            Outcome::Rejected(Rejection::BidTooLow)
        }),
{
}

/// The tick armed before an accepted bid is superseded: when it fires it
/// changes nothing, and the lot stays open. (The generation counter stops at
/// its largest value; below it, every accepted bid re-arms with a new one.)
pub proof fn lemma_bid_supersedes_tick(a: AuctionView, bid: Command, now: u64)
    requires
        a.wf(),
        a.generation < u64::MAX,
        bid is PlaceBid,
        step(a, bid).1 == Outcome::Accepted,
    ensures
        step(step(a, bid).0, Command::Tick { generation: a.generation, now })
            == (step(a, bid).0, Outcome::Ignored),
        step(a, bid).0.state == AuctionState::LotOpen,
{
}

/// A bid on a lot that arrives after the tick that closed it is rejected as
/// not open (when a later lot is open; after the last lot the auction is over).
pub proof fn lemma_bid_after_tick(a: AuctionView, tick: Command, bidder: ClientId, lot: u64, amount: u32, now: u64)
    requires
        a.wf(),
        lot == a.current,
        tick is Tick,
        step(a, tick).1 == Outcome::LotClosed,
        a.current + 1 < a.lots.len(),
    ensures
        step(step(a, tick).0, Command::PlaceBid { bidder, lot, amount, now })
            == (step(a, tick).0, Outcome::Rejected(Rejection::AuctionNotOpen)),
{
}

/// The timer tick that the current countdown is armed for.
pub open spec fn expire(a: AuctionView) -> AuctionView {
    step(a, Command::Tick { generation: a.generation, now: a.deadline }).0
}

/// `n` countdowns in a row run out with no bid in between.
pub open spec fn expire_times(a: AuctionView, n: nat) -> AuctionView
    decreases n,
{
    if n == 0 {
        a
    } else {
        expire_times(expire(a), (n - 1) as nat)
    }
}

/// Once completed, an auction stays as it is whatever arrives, and every bid
/// is rejected as closed.
pub proof fn lemma_completed_is_final(a: AuctionView, cs: Seq<Command>)
    requires
        a.state == AuctionState::Completed,
    ensures
        run(a, cs) == a,
        forall|k: int| 0 <= k < cs.len() && (#[trigger] cs[k]) is PlaceBid ==>
            step(a, cs[k]) == (a, Outcome::Rejected(Rejection::AuctionClosed)),
    decreases cs.len(),
{
    if cs.len() > 0 {
        assert(step(a, cs[0]).0 == a);
        lemma_completed_is_final(a, cs.drop_first());
    }
}

/// When the countdowns of all the remaining lots run out, the auction is
/// completed, and from then on no bid is accepted.
pub proof fn lemma_all_lots_close(a: AuctionView, cs: Seq<Command>)
    requires
        a.wf(),
        a.state == AuctionState::LotOpen,
    ensures
        expire_times(a, (a.lots.len() - a.current) as nat).state == AuctionState::Completed,
        run(expire_times(a, (a.lots.len() - a.current) as nat), cs)
            == expire_times(a, (a.lots.len() - a.current) as nat),
        forall|k: int| 0 <= k < cs.len() && (#[trigger] cs[k]) is PlaceBid ==>
            step(run(expire_times(a, (a.lots.len() - a.current) as nat), cs.take(k)), cs[k]).1
                == Outcome::Rejected(Rejection::AuctionClosed),
    decreases a.lots.len() - a.current,
{
    let n = (a.lots.len() - a.current) as nat;
    let b = expire(a);
    assert(a.tick_fires(a.generation, a.deadline));
    if a.current + 1 < a.lots.len() {
        assert(b.state == AuctionState::LotOpen);
        assert(b.current == a.current + 1);
        assert(expire_times(a, n) == expire_times(b, (n - 1) as nat));
        lemma_all_lots_close(b, cs);
    } else {
        assert(b.state == AuctionState::Completed);
        assert(expire_times(b, 0) == b);
        assert(expire_times(a, 1) == b);
        let z = expire_times(a, n);
        lemma_completed_is_final(z, cs);
        assert forall|k: int| 0 <= k < cs.len() && (#[trigger] cs[k]) is PlaceBid implies
            step(run(z, cs.take(k)), cs[k]).1 == Outcome::Rejected(Rejection::AuctionClosed) by {
            lemma_completed_is_final(z, cs.take(k));
        }
    }
}

/// A cancel from anyone but the host is rejected and changes nothing.
pub proof fn lemma_cancel_needs_host(a: AuctionView, sender: ClientId)
    requires
        sender != a.host,
    ensures
        step(a, Command::Cancel { sender }) == (a, Outcome::Rejected(Rejection::NotHost)),
{
}

/// Whatever a command is, the lots keep their order, items and floors, no
/// lot's highest bid falls, and an auction in a terminal state stays as it is.
pub proof fn lemma_step_keeps_lots(a: AuctionView, c: Command)
    requires
        a.wf(),
    ensures
        step(a, c).0.lots.len() == a.lots.len(),
        step(a, c).0.host == a.host,
        forall|i: int| 0 <= i < a.lots.len() ==> {
            &&& (#[trigger] step(a, c).0.lots[i]).items == a.lots[i].items
            &&& step(a, c).0.lots[i].floor == a.lots[i].floor
            &&& step(a, c).0.lots[i].highest_bid >= a.lots[i].highest_bid
        },
        a.state.is_terminal() ==> step(a, c).0 == a,
{
}

} // verus!
