//! Exercises of a Substrate course, as a verified library: the kitties and
//! proof-of-existence pallets as state machines over plain storage, a
//! checked sum, traffic-light durations and the decisions of an echo server.
use vstd::prelude::*;

pub mod calculate;
pub mod echo;
pub mod hashing;
pub mod kitties;
pub mod kitties_laws;
pub mod origin;
pub mod poe;
pub mod poe_laws;
pub mod traffic_light;

verus! {

} // verus!
