//! Coordinates and the rectangles that viewport queries look at.
//!
//! All rectangle arithmetic is carried out in `u64`, so that no sum of two
//! `u32` values can overflow and the executable tests agree with their
//! mathematical statements on every input.

use vstd::prelude::*;
use crate::consts::{DELTA_VIEWPORT, DOT_SIZE, WORLD_X_SIZE, WORLD_Y_SIZE};

verus! {

/// A point of the world, or the width and height of a viewport.
#[derive(Debug, Clone, Copy, PartialEq, Eq, Structural)]
pub struct Coordinates {
    pub x: u32,
    pub y: u32,
}

impl Coordinates {
    /// Whether the point lies inside the world.
    pub open spec fn in_world(self) -> bool {
        self.x < WORLD_X_SIZE && self.y < WORLD_Y_SIZE
    }

    /// Whether the point can be displaced by `delta` without leaving `u32`.
    pub open spec fn can_move_by(self, delta: Coordinates) -> bool {
        self.x + delta.x <= u32::MAX && self.y + delta.y <= u32::MAX
    }

    /// The point displaced by `delta`.
    pub open spec fn moved_by(self, delta: Coordinates) -> Coordinates
        recommends
            self.can_move_by(delta),
    {
        Coordinates { x: (self.x + delta.x) as u32, y: (self.y + delta.y) as u32 }
    }

    /// Displaces the point by `delta`, or reports that the sum does not fit.
    pub fn checked_move(self, delta: Coordinates) -> (moved: Option<Coordinates>)
        ensures
            self.can_move_by(delta) ==> moved == Some(self.moved_by(delta)),
            !self.can_move_by(delta) ==> moved is None,
    {
        match (self.x.checked_add(delta.x), self.y.checked_add(delta.y)) {
            (Some(x), Some(y)) => Some(Coordinates { x, y }),
            _ => None,
        }
    }
}

/// The lower bound of a rectangle: `value`, or 0 where `value` is negative.
pub open spec fn clamp_to_zero(value: int) -> int {
    if value < 0 {
        0
    } else {
        value
    }
}

/// Whether two axis-aligned squares, given by their top-left corners and side
/// lengths, overlap. Squares that only share an edge do not.
pub open spec fn squares_overlap(a: Coordinates, a_size: u32, b: Coordinates, b_size: u32) -> bool {
    &&& a.x < b.x + b_size
    &&& a.x + a_size > b.x
    &&& a.y < b.y + b_size
    &&& a.y + a_size > b.y
}

/// Tests whether two axis-aligned squares overlap.
pub fn overlap(a: Coordinates, a_size: u32, b: Coordinates, b_size: u32) -> (hit: bool)
    ensures
        hit == squares_overlap(a, a_size, b, b_size),
{
    let ax: u64 = a.x as u64;
    let ay: u64 = a.y as u64;
    let bx: u64 = b.x as u64;
    let by: u64 = b.y as u64;
    ax < bx + b_size as u64 && ax + a_size as u64 > bx && ay < by + b_size as u64 && ay
        + a_size as u64 > by
}

/// An axis-aligned rectangle of the world. The min side belongs to it.
#[derive(Debug, Clone, Copy, PartialEq, Eq, Structural)]
pub struct Viewport {
    pub min_x: u64,
    pub max_x: u64,
    pub min_y: u64,
    pub max_y: u64,
}

impl Viewport {
    /// The rectangle of a dot query: on the max side half the viewport and the
    /// visibility margin are added to the origin; on the min side half the
    /// viewport less the margin is taken off it, and the bound never goes
    /// below 0.
    pub open spec fn of_dots(origin: Coordinates, viewport_size: Coordinates) -> Viewport {
        Viewport {
            min_x: clamp_to_zero(origin.x - viewport_size.x / 2 + DELTA_VIEWPORT) as u64,
            max_x: (origin.x + viewport_size.x / 2 + DELTA_VIEWPORT) as u64,
            min_y: clamp_to_zero(origin.y - viewport_size.y / 2 + DELTA_VIEWPORT) as u64,
            max_y: (origin.y + viewport_size.y / 2 + DELTA_VIEWPORT) as u64,
        }
    }

    /// The rectangle of a player query: half the viewport on every side of the
    /// origin, without a margin, and never below 0.
    pub open spec fn of_players(origin: Coordinates, viewport_size: Coordinates) -> Viewport {
        Viewport {
            min_x: clamp_to_zero(origin.x - viewport_size.x / 2) as u64,
            max_x: (origin.x + viewport_size.x / 2) as u64,
            min_y: clamp_to_zero(origin.y - viewport_size.y / 2) as u64,
            max_y: (origin.y + viewport_size.y / 2) as u64,
        }
    }

    /// Whether a dot with top-left corner `dot` is visible in the rectangle:
    /// closed on the min side, open on the max side.
    pub open spec fn holds_dot(self, dot: Coordinates) -> bool {
        &&& dot.x >= self.min_x
        &&& dot.x + DOT_SIZE < self.max_x
        &&& dot.y >= self.min_y
        &&& dot.y + DOT_SIZE < self.max_y
    }

    /// Whether the square of a player with top-left corner `corner` and side
    /// `size` meets the rectangle.
    pub open spec fn meets_square(self, corner: Coordinates, size: u32) -> bool {
        &&& corner.x + size >= self.min_x
        &&& corner.x < self.max_x
        &&& corner.y + size >= self.min_y
        &&& corner.y < self.max_y
    }

    /// A point of the world as seen from the rectangle's min corner.
    pub open spec fn relative(self, point: Coordinates) -> Coordinates
        recommends
            point.x >= self.min_x,
            point.y >= self.min_y,
    {
        Coordinates { x: (point.x - self.min_x) as u32, y: (point.y - self.min_y) as u32 }
    }

    /// Computes the rectangle of a dot query.
    pub fn for_dots(origin: Coordinates, viewport_size: Coordinates) -> (rect: Viewport)
        ensures
            rect == Viewport::of_dots(origin, viewport_size),
    {
        let half_x: u64 = (viewport_size.x / 2) as u64;
        let half_y: u64 = (viewport_size.y / 2) as u64;
        let margin: u64 = DELTA_VIEWPORT as u64;
        let x: u64 = origin.x as u64;
        let y: u64 = origin.y as u64;
        Viewport {
            min_x: if x + margin >= half_x {
                x + margin - half_x
            } else {
                0
            },
            max_x: x + half_x + margin,
            min_y: if y + margin >= half_y {
                y + margin - half_y
            } else {
                0
            },
            max_y: y + half_y + margin,
        }
    }

    /// Computes the rectangle of a player query.
    pub fn for_players(origin: Coordinates, viewport_size: Coordinates) -> (rect: Viewport)
        ensures
            rect == Viewport::of_players(origin, viewport_size),
    {
        let half_x: u32 = viewport_size.x / 2;
        let half_y: u32 = viewport_size.y / 2;
        Viewport {
            min_x: if origin.x >= half_x {
                (origin.x - half_x) as u64
            } else {
                0
            },
            max_x: origin.x as u64 + half_x as u64,
            min_y: if origin.y >= half_y {
                (origin.y - half_y) as u64
            } else {
                0
            },
            max_y: origin.y as u64 + half_y as u64,
        }
    }

    /// Tests whether a dot is visible in the rectangle.
    pub fn contains_dot(&self, dot: Coordinates) -> (inside: bool)
        ensures
            inside == self.holds_dot(dot),
    {
        let x: u64 = dot.x as u64;
        let y: u64 = dot.y as u64;
        let size: u64 = DOT_SIZE as u64;
        x >= self.min_x && x + size < self.max_x && y >= self.min_y && y + size < self.max_y
    }

    /// Tests whether a player's square meets the rectangle.
    pub fn intersects(&self, corner: Coordinates, size: u32) -> (met: bool)
        ensures
            met == self.meets_square(corner, size),
    {
        let x: u64 = corner.x as u64;
        let y: u64 = corner.y as u64;
        let side: u64 = size as u64;
        x + side >= self.min_x && x < self.max_x && y + side >= self.min_y && y < self.max_y
    }

    /// Translates a point that lies on or beyond the min corner into
    /// coordinates relative to that corner.
    pub fn translate(&self, point: Coordinates) -> (local: Coordinates)
        requires
            point.x >= self.min_x,
            point.y >= self.min_y,
        ensures
            local == self.relative(point),
    {
        Coordinates {
            x: (point.x as u64 - self.min_x) as u32,
            y: (point.y as u64 - self.min_y) as u32,
        }
    }
}

/// A dot query whose min bound would fall below 0 starts at 0 on that axis.
pub proof fn lemma_dot_viewport_clamps(origin: Coordinates, viewport_size: Coordinates)
    ensures
        origin.x - viewport_size.x / 2 + DELTA_VIEWPORT < 0 ==> Viewport::of_dots(
            origin,
            viewport_size,
        ).min_x == 0,
        origin.y - viewport_size.y / 2 + DELTA_VIEWPORT < 0 ==> Viewport::of_dots(
            origin,
            viewport_size,
        ).min_y == 0,
        origin.x - viewport_size.x / 2 + DELTA_VIEWPORT >= 0 ==> Viewport::of_dots(
            origin,
            viewport_size,
        ).min_x == origin.x - viewport_size.x / 2 + DELTA_VIEWPORT,
        origin.y - viewport_size.y / 2 + DELTA_VIEWPORT >= 0 ==> Viewport::of_dots(
            origin,
            viewport_size,
        ).min_y == origin.y - viewport_size.y / 2 + DELTA_VIEWPORT,
{
}

/// A player query whose min bound would fall below 0 starts at 0 on that axis.
pub proof fn lemma_player_viewport_clamps(origin: Coordinates, viewport_size: Coordinates)
    ensures
        origin.x < viewport_size.x / 2 ==> Viewport::of_players(origin, viewport_size).min_x == 0,
        origin.y < viewport_size.y / 2 ==> Viewport::of_players(origin, viewport_size).min_y == 0,
        origin.x >= viewport_size.x / 2 ==> Viewport::of_players(origin, viewport_size).min_x
            == origin.x - viewport_size.x / 2,
        origin.y >= viewport_size.y / 2 ==> Viewport::of_players(origin, viewport_size).min_y
            == origin.y - viewport_size.y / 2,
{
}

} // verus!
