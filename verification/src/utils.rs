//! Random positions and fresh identifiers.
//!
//! Nothing here is reproducible: two calls may differ. The contracts say only
//! what holds of every outcome; whoever needs a definite result hands the
//! drawn values to the functions that take them as arguments.

use vstd::prelude::*;
use std::collections::HashMap;
use rand::Rng;
use uuid::Uuid;
use crate::consts::{WORLD_X_SIZE, WORLD_Y_SIZE};
use crate::geometry::Coordinates;

verus! {

/// Draws a number with `rand::Rng::gen_range`, called as
/// `gen_range(0, bound)` on the generator that `rand::thread_rng` hands out.
/// The crate documents the result as lying in `[0, bound)` and the call as
/// panicking unless `0 < bound`; nothing else is claimed of it.
#[verifier::external_body]
fn random_below(bound: u32) -> (value: u32)
    requires
        0 < bound,
    ensures
        value < bound,
{
    rand::thread_rng().gen_range(0, bound)
}

/// Draws a random identifier with `uuid::Uuid::new_v4` and hands out its 16
/// bytes as one big-endian number. Nothing is claimed of the value.
#[verifier::external_body]
pub(crate) fn random_id() -> (id: u128) {
    u128::from_be_bytes(*Uuid::new_v4().as_bytes())
}

/// A random point of the world.
pub fn generate_coordinates() -> (point: Coordinates)
    ensures
        point.in_world(),
{
    let x: u32 = random_below(WORLD_X_SIZE);
    let y: u32 = random_below(WORLD_Y_SIZE);
    Coordinates { x, y }
}

/// The dots that a sequence of drawn identifiers and positions makes up: a
/// later draw of an identifier replaces an earlier one.
pub open spec fn drawn_dots(drawn: Seq<(u128, Coordinates)>) -> Map<u128, Coordinates>
    decreases drawn.len(),
{
    if drawn.len() == 0 {
        Map::empty()
    } else {
        drawn_dots(drawn.drop_last()).insert(drawn.last().0, drawn.last().1)
    }
}

/// Whether every position of `drawn` lies in the world.
pub open spec fn drawn_in_world(drawn: Seq<(u128, Coordinates)>) -> bool {
    forall|i: int| 0 <= i < drawn.len() ==> (#[trigger] drawn[i]).1.in_world()
}

/// What draws make up is finite, holds at most one dot for each draw, at
/// least one dot if anything was drawn, and lies in the world if every draw
/// does.
pub proof fn lemma_drawn_dots(drawn: Seq<(u128, Coordinates)>)
    ensures
        drawn_dots(drawn).dom().finite(),
        drawn_dots(drawn).len() <= drawn.len(),
        drawn.len() > 0 ==> drawn_dots(drawn).len() > 0,
        drawn_in_world(drawn) ==> forall|id: u128| #[trigger]
            drawn_dots(drawn).contains_key(id) ==> drawn_dots(drawn)[id].in_world(),
    decreases drawn.len(),
{
    if drawn.len() > 0 {
        lemma_drawn_dots(drawn.drop_last());
        if drawn_in_world(drawn) {
            assert forall|i: int| 0 <= i < drawn.drop_last().len() implies (
            #[trigger] drawn.drop_last()[i]).1.in_world() by {
                assert(drawn.drop_last()[i] == drawn[i]);
            }
            assert(drawn.last() == drawn[drawn.len() - 1]);
        }
    }
}

/// Draws `count` identifiers and positions and makes dots of them. An
/// identifier that comes up twice counts once, so the result may hold fewer
/// than `count` dots, never more.
pub fn generate_dots(count: u32) -> (dots: HashMap<u128, Coordinates>)
    ensures
        exists|drawn: Seq<(u128, Coordinates)>|
            drawn.len() == count && drawn_in_world(drawn) && dots@ == drawn_dots(drawn),
        dots@.len() <= count,
        count > 0 ==> dots@.len() > 0,
        forall|id: u128| #[trigger] dots@.contains_key(id) ==> dots@[id].in_world(),
{
    let mut dots: HashMap<u128, Coordinates> = HashMap::new();
    let mut made: u32 = 0;
    let ghost mut drawn: Seq<(u128, Coordinates)> = Seq::empty();
    while made < count
        invariant
            made <= count,
            drawn.len() == made,
            drawn_in_world(drawn),
            dots@ == drawn_dots(drawn),
        decreases count - made,
    {
        let id: u128 = random_id();
        let point: Coordinates = generate_coordinates();
        dots.insert(id, point);
        proof {
            let before = drawn;
            drawn = drawn.push((id, point));
            assert(drawn.drop_last() =~= before);
        }
        made = made + 1;
    }
    proof {
        lemma_drawn_dots(drawn);
    }
    dots
}

} // verus!
