//! What the server sends to a client.

use vstd::prelude::*;
use std::collections::HashMap;
use crate::geometry::Coordinates;

verus! {

/// A reply of the server to a request.
#[derive(Debug)]
pub enum ServerResponses {
    Create(CreateResponse),
}

/// The reply to a request for a new player: the player's identifier, the
/// size of the world, and the dots that the player sees.
#[derive(Debug)]
pub struct CreateResponse {
    pub id: u128,
    pub world_size: Coordinates,
    pub dots: HashMap<u128, Coordinates>,
}

/// A snapshot of the dots that a player sees, pushed to its client.
#[derive(Debug)]
pub struct DotsResponse {
    pub dots: HashMap<u128, Coordinates>,
}

} // verus!
