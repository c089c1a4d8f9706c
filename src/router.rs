use vstd::prelude::*;
use crate::ClientId;
use crate::Lot;
use crate::auction::{Command, Timing};
use crate::bid::Rejection;
use crate::broadcast::Subscriptions;
use crate::registry::{Registry, RemoveError};

verus! {

/// A decoded inbound message, as it reaches the router.
pub enum Inbound {
    Echo { message: String },
    Heartbeat { client_id: String },
    HostAuction { lots: Vec<Lot>, timing: Timing },
    Join { auction: u32 },
    Start { auction: u32 },
    Cancel { auction: u32 },
    PlaceBid { auction: u32, lot: u64, amount: u32 },
    /// A well-formed frame of a kind this server does not handle.
    Unknown,
}

/// What the connection task does with a message.
pub enum Route {
    ReplyEcho { message: String },
    ReplyHeartbeat { client_id: String },
    /// Spawn an actor for a new auction over `lots`, hosted by the sender.
    CreateAuction { lots: Vec<Lot>, timing: Timing },
    /// The sender now follows `auction`.
    Joined { auction: u32 },
    /// Hand `command` to the mailbox of `auction`'s actor, without waiting.
    Forward { auction: u32, command: Command },
    /// Tell the sender why nothing happened to its message about `auction`;
    /// the connection stays open.
    Reject { auction: u32, reason: Rejection },
    /// Drop the message.
    Ignore,
}

/// The client identifier a heartbeat reply carries.
pub open spec fn heartbeat_id(requested: Seq<char>) -> Seq<char> {
    if requested.len() == 0 { "client 0"@ } else { requested }
}

/// The client identifier to answer a heartbeat with: the one it carried, or a
/// default when it carried none.
pub fn heartbeat_client_id(requested: String) -> (r: String)
    ensures
        r@ == heartbeat_id(requested@),
{
    if requested.as_str().is_empty() {
        proof {
            reveal_strlit("client 0");
        }
        "client 0".to_string()
    } else {
        requested
    }
}

/// Process-wide state: the live auctions and who follows which.
#[verifier::reject_recursive_types(H)]
pub struct ServerState<H> {
    pub auctions: Registry<H>,
    pub subscriptions: Subscriptions,
}

impl<H> ServerState<H> {
    pub open spec fn wf(&self) -> bool {
        self.auctions.wf() && self.subscriptions.wf()
    }

    pub fn new() -> (r: ServerState<H>)
        ensures
            r.wf(),
            r.auctions@ == Map::<u32, H>::empty(),
            r.subscriptions@ == Map::<ClientId, u32>::empty(),
    {
        ServerState { auctions: Registry::new(), subscriptions: Subscriptions::new() }
    }

    /// Routes one message from `client`, received at `now`: diagnostic
    /// messages are answered directly, auction messages go to a known auction.
    pub fn route(&mut self, client: ClientId, msg: Inbound, now: u64) -> (r: Route)
        requires
            old(self).wf(),
        ensures
            final(self).wf(),
            final(self).auctions@ == old(self).auctions@,
            match msg {
                Inbound::Echo { message } => r == Route::ReplyEcho { message },
                Inbound::Heartbeat { client_id } =>
                    r matches Route::ReplyHeartbeat { client_id: id } && id@ == heartbeat_id(client_id@),
                Inbound::HostAuction { lots, timing } => r == Route::CreateAuction { lots, timing },
                Inbound::Join { auction } => if old(self).auctions@.contains_key(auction) {
                    &&& r == Route::Joined { auction }
                    &&& final(self).subscriptions@ == old(self).subscriptions@.insert(client, auction)
                } else {
                    &&& r == Route::Reject { auction, reason: Rejection::NotFound }
                    &&& final(self).subscriptions@ == old(self).subscriptions@
                },
                Inbound::Start { auction } => r == if old(self).auctions@.contains_key(auction) {
                    Route::Forward { auction, command: Command::Start { sender: client, now } }
                } else {
                    Route::Reject { auction, reason: Rejection::NotFound }
                },
                Inbound::Cancel { auction } => r == if old(self).auctions@.contains_key(auction) {
                    Route::Forward { auction, command: Command::Cancel { sender: client } }
                } else {
                    Route::Reject { auction, reason: Rejection::NotFound }
                },
                Inbound::PlaceBid { auction, lot, amount } => r == if old(self).auctions@.contains_key(auction) {
                    Route::Forward { auction, command: Command::PlaceBid { bidder: client, lot, amount, now } }
                } else {
                    Route::Reject { auction, reason: Rejection::NotFound }
                },
                Inbound::Unknown => r == Route::Ignore,
            },
            !(msg is Join) ==> final(self).subscriptions@ == old(self).subscriptions@,
    {
        match msg {
            Inbound::Echo { message } => Route::ReplyEcho { message },
            Inbound::Heartbeat { client_id } => Route::ReplyHeartbeat { client_id: heartbeat_client_id(client_id) },
            Inbound::HostAuction { lots, timing } => Route::CreateAuction { lots, timing },
            Inbound::Join { auction } => {
                if self.auctions.contains(auction) {
                    self.subscriptions.subscribe(client, auction);
                    Route::Joined { auction }
                } else {
                    Route::Reject { auction, reason: Rejection::NotFound }
                }
            },
            Inbound::Start { auction } => {
                if self.auctions.contains(auction) {
                    Route::Forward { auction, command: Command::Start { sender: client, now } }
                } else {
                    Route::Reject { auction, reason: Rejection::NotFound }
                }
            },
            Inbound::Cancel { auction } => {
                if self.auctions.contains(auction) {
                    Route::Forward { auction, command: Command::Cancel { sender: client } }
                } else {
                    Route::Reject { auction, reason: Rejection::NotFound }
                }
            },
            Inbound::PlaceBid { auction, lot, amount } => {
                if self.auctions.contains(auction) {
                    Route::Forward { auction, command: Command::PlaceBid { bidder: client, lot, amount, now } }
                } else {
                    Route::Reject { auction, reason: Rejection::NotFound }
                }
            },
            Inbound::Unknown => Route::Ignore,
        }
    }

    /// Registers a freshly spawned actor for an auction hosted by `host`, who
    /// then follows it. `None` once auction identifiers are used up.
    pub fn host_auction(&mut self, host: ClientId, handle: H) -> (r: Option<u32>)
        requires
            old(self).wf(),
        ensures
            final(self).wf(),
            r is Some <==> old(self).auctions.next_id() < u32::MAX,
            match r {
                Some(id) => {
                    &&& !old(self).auctions@.contains_key(id)
                    &&& id == old(self).auctions.next_id()
                    &&& final(self).auctions.next_id() > id
                    &&& final(self).auctions@ == old(self).auctions@.insert(id, handle)
                    &&& final(self).subscriptions@ == old(self).subscriptions@.insert(host, id)
                },
                None => {
                    &&& final(self).auctions@ == old(self).auctions@
                    &&& final(self).subscriptions@ == old(self).subscriptions@
                },
            },
    {
        match self.auctions.create(handle) {
            Some(id) => {
                self.subscriptions.subscribe(host, id);
                Some(id)
            },
            None => None,
        }
    }

    /// Sends to these clients failed: they follow nothing any more, so that
    /// one failing subscriber does not hold up the others.
    pub fn drop_unreachable(&mut self, failed: &Vec<ClientId>)
        requires
            old(self).wf(),
        ensures
            final(self).wf(),
            final(self).auctions@ == old(self).auctions@,
            final(self).subscriptions@ == old(self).subscriptions@.remove_keys(failed@.to_set()),
    {
        let mut i: usize = 0;
        while i < failed.len()
            invariant
                self.wf(),
                i <= failed.len(),
                self.auctions@ == old(self).auctions@,
                self.subscriptions@ == old(self).subscriptions@.remove_keys(failed@.take(i as int).to_set()),
            decreases failed.len() - i,
        {
            self.subscriptions.unsubscribe(failed[i]);
            proof {
                let p = failed@.take(i as int);
                let q = failed@.take(i + 1);
                assert(q =~= p.push(failed@[i as int]));
                assert(q.to_set() =~= p.to_set().insert(failed@[i as int])) by {
                    assert forall|c: ClientId| q.to_set().contains(c) <==>
                        p.to_set().contains(c) || c == failed@[i as int] by {
                        if q.contains(c) {
                            let k = choose|k: int| 0 <= k < q.len() && #[trigger] q[k] == c;
                            if k < i {
                                assert(p[k] == c);
                            }
                        }
                        if p.contains(c) {
                            let k = choose|k: int| 0 <= k < p.len() && #[trigger] p[k] == c;
                            assert(q[k] == c);
                        }
                        if c == failed@[i as int] {
                            assert(q[i as int] == c);
                        }
                    }
                }
                assert(self.subscriptions@ =~= old(self).subscriptions@.remove_keys(q.to_set()));
            }
            i = i + 1;
        }
        assert(failed@.take(failed@.len() as int) =~= failed@);
    }

    /// A client went away: it follows nothing any more.
    pub fn disconnect(&mut self, client: ClientId)
        requires
            old(self).wf(),
        ensures
            final(self).wf(),
            final(self).auctions@ == old(self).auctions@,
            final(self).subscriptions@ == old(self).subscriptions@.remove(client),
    {
        self.subscriptions.unsubscribe(client);
    }

    /// Takes auction `id` out of the registry if its actor reports a terminal
    /// state and nobody follows it any more.
    pub fn retire(&mut self, id: u32, terminal: bool) -> (r: Result<H, RemoveError>)
        requires
            old(self).wf(),
        ensures
            final(self).wf(),
            final(self).subscriptions@ == old(self).subscriptions@,
            match r {
                Ok(h) => {
                    &&& old(self).auctions@.contains_key(id) && terminal
                    &&& forall|c: ClientId| old(self).subscriptions@.contains_key(c)
                        ==> old(self).subscriptions@[c] != id
                    &&& h == old(self).auctions@[id]
                    &&& final(self).auctions@ == old(self).auctions@.remove(id)
                },
                Err(RemoveError::NotFound) => {
                    &&& !old(self).auctions@.contains_key(id)
                    &&& final(self).auctions@ == old(self).auctions@
                },
                Err(RemoveError::StillActive) => {
                    &&& old(self).auctions@.contains_key(id)
                    &&& !terminal || exists|c: ClientId| old(self).subscriptions@.contains_key(c)
                        && old(self).subscriptions@[c] == id
                    &&& final(self).auctions@ == old(self).auctions@
                },
            },
    {
        let followers = self.subscriptions.recipients(id);
        proof {
            if followers.len() > 0 {
                assert(followers@.contains(followers@[0]));
            }
        }
        self.auctions.remove(id, terminal, followers.len())
    }
}

} // verus!
