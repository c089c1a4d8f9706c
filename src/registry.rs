use std::collections::HashMap;
use vstd::prelude::*;

verus! {

/// Why an auction could not be taken out of the registry.
#[derive(Clone, Copy, Debug, PartialEq, Eq, Structural)]
pub enum RemoveError {
    NotFound,
    /// The auction is not over, or clients are still subscribed to it.
    StillActive,
}

/// Maps auction identifiers to the handles of their actors. Identifiers are
/// handed out in increasing order, so they are unique and ordered by creation.
#[verifier::reject_recursive_types(H)]
pub struct Registry<H> {
    auctions: HashMap<u32, H>,
    next_id: u32,
}

impl<H> View for Registry<H> {
    type V = Map<u32, H>;

    closed spec fn view(&self) -> Map<u32, H> {
        self.auctions@
    }
}

impl<H> Registry<H> {
    /// Every identifier in use is below this one.
    pub closed spec fn next_id(&self) -> u32 {
        self.next_id
    }

    pub closed spec fn wf(&self) -> bool {
        forall|k: u32| #[trigger] self.auctions@.contains_key(k) ==> k < self.next_id
    }

    pub fn new() -> (r: Registry<H>)
        ensures
            r.wf(),
            r@ == Map::<u32, H>::empty(),
    {
        Registry { auctions: HashMap::new(), next_id: 0 }
    }

    /// Registers `handle` under a fresh identifier, larger than every one
    /// handed out before; `None` once the identifiers are used up.
    pub fn create(&mut self, handle: H) -> (r: Option<u32>)
        requires
            old(self).wf(),
        ensures
            final(self).wf(),
            match r {
                Some(id) => {
                    &&& !old(self)@.contains_key(id)
                    &&& id == old(self).next_id()
                    &&& final(self)@ == old(self)@.insert(id, handle)
                    &&& final(self).next_id() > id
                },
                None => {
                    &&& old(self).next_id() == u32::MAX
                    &&& final(self)@ == old(self)@
                },
            },
    {
        broadcast use vstd::std_specs::hash::group_hash_axioms;
        if self.next_id == u32::MAX {
            return None;
        }
        let id = self.next_id;
        self.auctions.insert(id, handle);
        self.next_id = id + 1;
        Some(id)
    }

    /// The handle of auction `id`, if there is one.
    pub fn lookup(&self, id: u32) -> (r: Option<&H>)
        requires
            self.wf(),
        ensures
            match r {
                Some(h) => self@.contains_key(id) && *h == self@[id],
                None => !self@.contains_key(id),
            },
    {
        broadcast use vstd::std_specs::hash::group_hash_axioms;
        self.auctions.get(&id)
    }

    /// Takes auction `id` out, which is allowed only once it has reached a
    /// terminal state and nobody is subscribed to it.
    pub fn remove(&mut self, id: u32, terminal: bool, subscribers: usize) -> (r: Result<H, RemoveError>)
        requires
            old(self).wf(),
        ensures
            final(self).wf(),
            final(self).next_id() == old(self).next_id(),
            match r {
                Ok(h) => {
                    &&& old(self)@.contains_key(id) && terminal && subscribers == 0
                    &&& h == old(self)@[id]
                    &&& final(self)@ == old(self)@.remove(id)
                },
                Err(RemoveError::NotFound) => !old(self)@.contains_key(id) && final(self)@ == old(self)@,
                Err(RemoveError::StillActive) => {
                    &&& old(self)@.contains_key(id) && !(terminal && subscribers == 0)
                    &&& final(self)@ == old(self)@
                },
            },
    {
        broadcast use vstd::std_specs::hash::group_hash_axioms;
        if !self.auctions.contains_key(&id) {
            return Err(RemoveError::NotFound);
        }
        if !terminal || subscribers != 0 {
            return Err(RemoveError::StillActive);
        }
        match self.auctions.remove(&id) {
            Some(h) => Ok(h),
            None => Err(RemoveError::NotFound),
        }
    }

    /// Whether auction `id` is registered.
    pub fn contains(&self, id: u32) -> (r: bool)
        requires
            self.wf(),
        ensures
            r == self@.contains_key(id),
    {
        broadcast use vstd::std_specs::hash::group_hash_axioms;
        self.auctions.contains_key(&id)
    }
}

} // verus!
