//! What a client may ask of the server.

use vstd::prelude::*;
use crate::geometry::Coordinates;

verus! {

/// A request of a client. A payload is tried against the shapes in the order
/// of the variants, and is `Invalid` where it has none of them.
#[derive(Debug)]
pub enum ClientRequests {
    Create(CreateRequest),
    Move(MoveRequest),
    Invalid,
}

/// Asks for a player to be created for a client whose window has the given
/// size.
#[derive(Debug, Clone, Copy, PartialEq, Eq, Structural)]
pub struct CreateRequest {
    pub viewport_size: Coordinates,
}

/// Reports that the player `id` has now the size `size`, has moved by `moved`
/// and has consumed the listed dots.
#[derive(Debug)]
pub struct MoveRequest {
    pub id: u128,
    pub size: u32,
    pub moved: Coordinates,
    pub dots_consumed: Vec<u128>,
}

/// A payload that has the shape of no request.
#[derive(Debug, Clone, Copy, PartialEq, Eq, Structural)]
pub struct Invalid;

impl ClientRequests {
    /// The request that a payload stands for, given what came of reading it
    /// as each shape: the first shape that it has wins, and a payload with
    /// neither shape is invalid.
    pub fn first_match(create: Option<CreateRequest>, movement: Option<MoveRequest>) -> (request:
        ClientRequests)
        ensures
            create matches Some(c) ==> request == ClientRequests::Create(c),
            create is None ==> (movement matches Some(m) ==> request == ClientRequests::Move(m)),
            create is None && movement is None ==> request == ClientRequests::Invalid,
    {
        match create {
            Some(c) => ClientRequests::Create(c),
            None => match movement {
                Some(m) => ClientRequests::Move(m),
                None => ClientRequests::Invalid,
            },
        }
    }
}

} // verus!
