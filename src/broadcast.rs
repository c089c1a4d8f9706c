use vstd::prelude::*;
use crate::ClientId;

verus! {

/// Which auction each connected client follows; a client follows at most one.
pub struct Subscriptions {
    clients: Vec<ClientId>,
    auctions: Vec<u32>,
    follows: Ghost<Map<ClientId, u32>>,
}

impl View for Subscriptions {
    type V = Map<ClientId, u32>;

    closed spec fn view(&self) -> Map<ClientId, u32> {
        self.follows@
    }
}

impl Subscriptions {
    pub closed spec fn wf(&self) -> bool {
        &&& self.clients.len() == self.auctions.len()
        &&& forall|i: int, j: int| 0 <= i < j < self.clients.len() ==> self.clients@[i] != self.clients@[j]
        &&& forall|i: int| 0 <= i < self.clients.len() ==> {
            &&& self.follows@.contains_key(#[trigger] self.clients@[i])
            &&& self.follows@[self.clients@[i]] == self.auctions@[i]
        }
        &&& forall|c: ClientId| #[trigger] self.follows@.contains_key(c) ==>
            exists|i: int| 0 <= i < self.clients.len() && self.clients@[i] == c
    }

    pub fn new() -> (r: Subscriptions)
        ensures
            r.wf(),
            r@ == Map::<ClientId, u32>::empty(),
    {
        Subscriptions { clients: Vec::new(), auctions: Vec::new(), follows: Ghost(Map::empty()) }
    }

    fn position(&self, client: ClientId) -> (r: Option<usize>)
        requires
            self.wf(),
        ensures
            match r {
                Some(i) => i < self.clients.len() && self.clients@[i as int] == client,
                None => !self@.contains_key(client),
            },
    {
        let mut i: usize = 0;
        while i < self.clients.len()
            invariant
                self.wf(),
                i <= self.clients.len(),
                forall|j: int| 0 <= j < i ==> self.clients@[j] != client,
            decreases self.clients.len() - i,
        {
            if self.clients[i] == client {
                return Some(i);
            }
            i = i + 1;
        }
        None
    }

    /// The auction `client` follows, if any.
    pub fn subscription(&self, client: ClientId) -> (r: Option<u32>)
        requires
            self.wf(),
        ensures
            r == (if self@.contains_key(client) { Some(self@[client]) } else { None::<u32> }),
    {
        match self.position(client) {
            Some(i) => Some(self.auctions[i]),
            None => None,
        }
    }

    /// `client` now follows `auction`, and no other auction.
    pub fn subscribe(&mut self, client: ClientId, auction: u32)
        requires
            old(self).wf(),
        ensures
            final(self).wf(),
            final(self)@ == old(self)@.insert(client, auction),
    {
        let ghost old_clients = self.clients@;
        let ghost old_auctions = self.auctions@;
        match self.position(client) {
            Some(i) => {
                self.auctions.set(i, auction);
                self.follows = Ghost(self.follows@.insert(client, auction));
                proof {
                    assert forall|j: int| 0 <= j < self.clients.len() implies {
                        &&& self.follows@.contains_key(#[trigger] self.clients@[j])
                        &&& self.follows@[self.clients@[j]] == self.auctions@[j]
                    } by {
                        if j != i {
                            assert(old_clients[j] != old_clients[i as int]);
                        }
                    }
                    assert forall|c: ClientId| #[trigger] self.follows@.contains_key(c) implies
                        exists|j: int| 0 <= j < self.clients.len() && self.clients@[j] == c by {
                        if c == client {
                            assert(self.clients@[i as int] == c);
                        } else {
                            let j = choose|j: int| 0 <= j < old_clients.len() && old_clients[j] == c;
                            assert(self.clients@[j] == c);
                        }
                    }
                }
            },
            None => {
                self.clients.push(client);
                self.auctions.push(auction);
                self.follows = Ghost(self.follows@.insert(client, auction));
                proof {
                    assert forall|j: int| 0 <= j < self.clients.len() implies {
                        &&& self.follows@.contains_key(#[trigger] self.clients@[j])
                        &&& self.follows@[self.clients@[j]] == self.auctions@[j]
                    } by {
                        if j < old_clients.len() {
                            assert(self.clients@[j] == old_clients[j]);
                            assert(self.auctions@[j] == old_auctions[j]);
                        }
                    }
                    assert forall|c: ClientId| #[trigger] self.follows@.contains_key(c) implies
                        exists|j: int| 0 <= j < self.clients.len() && self.clients@[j] == c by {
                        if c == client {
                            assert(self.clients@[old_clients.len() as int] == c);
                        } else {
                            let j = choose|j: int| 0 <= j < old_clients.len() && old_clients[j] == c;
                            assert(self.clients@[j] == c);
                        }
                    }
                }
            },
        }
    }

    /// `client` follows nothing any more (it disconnected, or a send to it
    /// failed). Returns whether it followed an auction.
    pub fn unsubscribe(&mut self, client: ClientId) -> (r: bool)
        requires
            old(self).wf(),
        ensures
            final(self).wf(),
            r == old(self)@.contains_key(client),
            final(self)@ == old(self)@.remove(client),
    {
        match self.position(client) {
            None => {
                assert(self.follows@.remove(client) =~= self.follows@);
                false
            },
            Some(i) => {
                let ghost old_clients = self.clients@;
                let ghost old_auctions = self.auctions@;
                self.clients.remove(i);
                self.auctions.remove(i);
                self.follows = Ghost(self.follows@.remove(client));
                proof {
                    assert forall|a: int, b: int| 0 <= a < b < self.clients.len() implies
                        self.clients@[a] != self.clients@[b] by {
                        let a2 = if a < i { a } else { a + 1 };
                        let b2 = if b < i { b } else { b + 1 };
                        assert(self.clients@[a] == old_clients[a2]);
                        assert(self.clients@[b] == old_clients[b2]);
                    }
                    assert forall|j: int| 0 <= j < self.clients.len() implies {
                        &&& self.follows@.contains_key(#[trigger] self.clients@[j])
                        &&& self.follows@[self.clients@[j]] == self.auctions@[j]
                    } by {
                        let j2 = if j < i { j } else { j + 1 };
                        assert(self.clients@[j] == old_clients[j2]);
                        assert(self.auctions@[j] == old_auctions[j2]);
                        assert(old_clients[j2] != old_clients[i as int]);
                    }
                    assert forall|c: ClientId| #[trigger] self.follows@.contains_key(c) implies
                        exists|j: int| 0 <= j < self.clients.len() && self.clients@[j] == c by {
                        let j = choose|j: int| 0 <= j < old_clients.len() && old_clients[j] == c;
                        assert(j != i);
                        if j < i {
                            assert(self.clients@[j] == c);
                        } else {
                            assert(self.clients@[j - 1] == c);
                        }
                    }
                }
                true
            },
        }
    }

    /// The clients that follow `auction`, each once: where a snapshot of it
    /// is sent.
    pub fn recipients(&self, auction: u32) -> (r: Vec<ClientId>)
        requires
            self.wf(),
        ensures
            r@.no_duplicates(),
            forall|c: ClientId| r@.contains(c) <==> (self@.contains_key(c) && self@[c] == auction),
    {
        let mut out: Vec<ClientId> = Vec::new();
        let mut i: usize = 0;
        while i < self.clients.len()
            invariant
                self.wf(),
                i <= self.clients.len(),
                out@.no_duplicates(),
                forall|c: ClientId| out@.contains(c) <==> (exists|j: int|
                    0 <= j < i && self.clients@[j] == c && self.auctions@[j] == auction),
            decreases self.clients.len() - i,
        {
            let c = self.clients[i];
            if self.auctions[i] == auction {
                proof {
                    if out@.contains(c) {
                        let j = choose|j: int| 0 <= j < i && self.clients@[j] == c && self.auctions@[j] == auction;
                        assert(self.clients@[j] != self.clients@[i as int]);
                    }
                }
                let ghost prev = out@;
                out.push(c);
                proof {
                    assert forall|x: ClientId| out@.contains(x) <==> (exists|j: int|
                        0 <= j < i + 1 && self.clients@[j] == x && self.auctions@[j] == auction) by {
                        if x == c {
                            assert(out@[out.len() - 1] == x);
                            assert(self.clients@[i as int] == x && self.auctions@[i as int] == auction);
                        } else {
                            if out@.contains(x) {
                                let k = choose|k: int| 0 <= k < out.len() && out@[k] == x;
                                assert(prev[k] == x);
                                assert(prev.contains(x));
                                let j = choose|j: int| 0 <= j < i && self.clients@[j] == x && self.auctions@[j] == auction;
                                assert(0 <= j < i + 1);
                            }
                            if exists|j: int| 0 <= j < i + 1 && self.clients@[j] == x && self.auctions@[j] == auction {
                                let j = choose|j: int| 0 <= j < i + 1 && self.clients@[j] == x && self.auctions@[j] == auction;
                                assert(j != i);
                                assert(prev.contains(x));
                                let k = choose|k: int| 0 <= k < prev.len() && prev[k] == x;
                                assert(out@[k] == x);
                            }
                        }
                    }
                }
            } else {
                proof {
                    assert forall|x: ClientId| out@.contains(x) <==> (exists|j: int|
                        0 <= j < i + 1 && self.clients@[j] == x && self.auctions@[j] == auction) by {
                        if out@.contains(x) {
                            let j = choose|j: int| 0 <= j < i && self.clients@[j] == x && self.auctions@[j] == auction;
                            assert(0 <= j < i + 1);
                        }
                        if exists|j: int| 0 <= j < i + 1 && self.clients@[j] == x && self.auctions@[j] == auction {
                            let j = choose|j: int| 0 <= j < i + 1 && self.clients@[j] == x && self.auctions@[j] == auction;
                            assert(j != i);
                        }
                    }
                }
            }
            i = i + 1;
        }
        proof {
            assert forall|c: ClientId| out@.contains(c) <==> (self@.contains_key(c) && self@[c] == auction) by {
                if self@.contains_key(c) && self@[c] == auction {
                    let j = choose|j: int| 0 <= j < self.clients.len() && self.clients@[j] == c;
                    assert(self.auctions@[j] == auction);
                }
            }
        }
        out
    }
}

} // verus!
