use vstd::prelude::*;
use crate::auction::Snapshot;

verus! {

/// What a client shows of the auction it follows: the latest snapshot it
/// received. Snapshots are applied by overwriting, never as deltas.
#[derive(Clone, Copy, Debug, PartialEq, Eq, Structural)]
pub struct ClientView {
    pub latest: Option<Snapshot>,
}

/// The client state after receiving `s`.
pub open spec fn applied(v: ClientView, s: Snapshot) -> ClientView {
    ClientView { latest: Some(s) }
}

impl ClientView {
    pub fn new() -> (r: ClientView)
        ensures
            r.latest == None::<Snapshot>,
    {
        ClientView { latest: None }
    }

    /// Takes in a snapshot from the server.
    pub fn apply(&mut self, s: Snapshot)
        ensures
            *final(self) == applied(*old(self), s),
    {
        self.latest = Some(s);
    }
}

/// Receiving a snapshot a second time, right after it was applied, leaves
/// the client as it was.
pub proof fn lemma_snapshot_redelivery(v: ClientView, s: Snapshot)
    ensures
        applied(applied(v, s), s) == applied(v, s),
{
}

} // verus!
