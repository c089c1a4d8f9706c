use vstd::prelude::*;

pub mod lot;
pub mod bid;
pub mod auction;
pub mod laws;
pub mod registry;
pub mod broadcast;
pub mod client;
pub mod router;

pub use router::ServerState;
pub use lot::Lot;
pub use auction::Auction;

verus! {

/// Opaque identifier of a connected client.
#[derive(Clone, Copy, Debug, PartialEq, Eq, Structural)]
pub struct ClientId(pub u128);

} // verus!
