//! Simulation core of a multiplayer arena.
//!
//! Clients steer square players through a bounded world, collect dots and
//! run into each other. This crate holds the state of that world and the
//! rules that change it:
//!
//! - [`dots`]: the dot field, its viewport query, deletion and regeneration;
//! - [`players`]: the player registry, moves, collisions and the players that
//!   one of them sees;
//! - [`world`]: the coordinator, which knows which session plays which player
//!   and says what is asked of the other two for each request and tick;
//! - [`ws`]: one client session, with its keepalive clock;
//! - [`geometry`]: coordinates, rectangles and the overlap of squares.
//!
//! Identifiers of players and dots are 128-bit numbers: the sixteen bytes of
//! a UUID, most significant first. Sessions are known by a 64-bit handle.
//!
//! Each aggregate is viewed as a mathematical map, and every function states
//! what it does to that map. Nothing here reads a clock, a socket or a file;
//! random identifiers and positions come from `uuid` and `rand` through the
//! two trusted functions of [`utils`].

pub mod client_messages;
pub mod collections;
pub mod consts;
pub mod dots;
pub mod geometry;
pub mod players;
pub mod server_messages;
pub mod utils;
pub mod world;
pub mod ws;
