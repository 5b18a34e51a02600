//! Tunable constants of the simulation.

use vstd::prelude::*;

verus! {

/// Width of the world.
pub const WORLD_X_SIZE: u32 = 20_000;

/// Height of the world.
pub const WORLD_Y_SIZE: u32 = 20_000;

/// Visibility margin that a dot query adds around a viewport.
pub const DELTA_VIEWPORT: u32 = 100;

/// Side length of a newly created player.
pub const DEFAULT_PLAYER_SIZE: u32 = 20;

/// Number of dots that a field holds when it is full.
pub const MAX_DOTS_AMOUNT: u32 = 10_000;

/// Side length of a dot.
pub const DOT_SIZE: u32 = 10;

/// Milliseconds between two keepalive checks of a session.
pub const PING_SEND_INTERVAL: u64 = 2_000;

/// Milliseconds between two dot snapshots pushed to the sessions.
pub const DOTS_SEND_INTERVAL: u64 = 4_000;

/// Milliseconds between two snapshots of nearby players pushed to the sessions.
pub const PLAYERS_SEND_INTERVAL: u64 = 1_000;

/// Milliseconds of silence after which a session is dropped.
pub const CLIENT_TIMEOUT: u64 = 10_000;

/// Milliseconds between two regenerations of the dot field.
pub const DOTS_CREATE_INTERVAL: u64 = 5_000;

} // verus!
