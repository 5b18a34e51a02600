//! The dot field: the collectible dots of the world, the viewport query on
//! them, their deletion and their regeneration up to a cap.

use vstd::prelude::*;
use std::collections::HashMap;
use crate::collections::{keys_of, lemma_take_one_more, lists_keys};
use crate::consts::MAX_DOTS_AMOUNT;
use crate::geometry::{Coordinates, Viewport};
use crate::utils::{drawn_dots, drawn_in_world, generate_dots};

verus! {

/// Asks for the dots that the player `id`, standing at `coordinates`, sees in
/// a viewport of `viewport_size`.
#[derive(Debug, Clone, Copy)]
pub struct GetDots {
    pub id: u128,
    pub coordinates: Coordinates,
    pub viewport_size: Coordinates,
}

/// Asks for the listed dots to be deleted.
#[derive(Debug)]
pub struct DeleteDots(pub Vec<u128>);

/// The dots that a player sees, in coordinates relative to the min corner of
/// the rectangle that was queried.
#[derive(Debug)]
pub struct GetDotsResult {
    pub dots: HashMap<u128, Coordinates>,
    pub player_id: u128,
}

/// The dot field.
#[derive(Debug)]
pub struct Dots {
    dots: HashMap<u128, Coordinates>,
    dots_count: u32,
    max_dots_amount: u32,
}

/// The dots of `dots` that are visible in `rect`, each translated to
/// coordinates relative to the min corner of `rect`.
pub open spec fn visible_dots(dots: Map<u128, Coordinates>, rect: Viewport) -> Map<
    u128,
    Coordinates,
> {
    Map::new(
        |id: u128| dots.contains_key(id) && rect.holds_dot(dots[id]),
        |id: u128| rect.relative(dots[id]),
    )
}

/// The field `dots` after `fresh` has been merged into it: a fresh dot whose
/// identifier is already taken gives way to the dot that is there.
pub open spec fn merged_dots(dots: Map<u128, Coordinates>, fresh: Map<u128, Coordinates>) -> Map<
    u128,
    Coordinates,
> {
    fresh.union_prefer_right(dots)
}

impl View for Dots {
    type V = Map<u128, Coordinates>;

    closed spec fn view(&self) -> Map<u128, Coordinates> {
        self.dots@
    }
}

impl Dots {
    /// The count that the field keeps of its dots.
    pub closed spec fn count(&self) -> nat {
        self.dots_count as nat
    }

    /// The number of dots at which the field is full.
    pub closed spec fn capacity(&self) -> nat {
        self.max_dots_amount as nat
    }

    /// The invariant of the field: the count is the number of dots, and it
    /// never exceeds the capacity.
    pub open spec fn wf(&self) -> bool {
        &&& self@.dom().finite()
        &&& self.count() == self@.len()
        &&& self.count() <= self.capacity()
    }

    /// An empty field that is full at `max_dots_amount` dots.
    pub fn new(max_dots_amount: u32) -> (field: Dots)
        ensures
            field.wf(),
            field@ == Map::<u128, Coordinates>::empty(),
            field.capacity() == max_dots_amount,
    {
        Dots { dots: HashMap::new(), dots_count: 0, max_dots_amount }
    }

    /// The count that the field keeps of its dots.
    pub fn dots_count(&self) -> (count: u32)
        ensures
            count == self.count(),
    {
        self.dots_count
    }

    /// The number of dots at which the field is full.
    pub fn max_dots_amount(&self) -> (capacity: u32)
        ensures
            capacity == self.capacity(),
    {
        self.max_dots_amount
    }

    /// The number of dots in the field.
    pub fn len(&self) -> (len: usize)
        ensures
            len == self@.len(),
    {
        self.dots.len()
    }

    /// The position of the dot `id` in the world, if the field has that dot.
    pub fn get(&self, id: u128) -> (dot: Option<Coordinates>)
        ensures
            dot == (if self@.contains_key(id) {
                Some(self@[id])
            } else {
                None
            }),
    {
        match self.dots.get(&id) {
            Some(dot) => Some(*dot),
            None => None,
        }
    }

    /// A field of capacity `max_dots_amount`, filled with random dots by one
    /// regeneration.
    pub fn create_field(max_dots_amount: u32) -> (field: Dots)
        ensures
            field.wf(),
            field.capacity() == max_dots_amount,
            exists|drawn: Seq<(u128, Coordinates)>|
                drawn.len() == max_dots_amount && drawn_in_world(drawn) && field@ == drawn_dots(
                    drawn,
                ),
            forall|id: u128| #[trigger] field@.contains_key(id) ==> field@[id].in_world(),
    {
        let mut field = Dots::new(max_dots_amount);
        field.regenerate();
        proof {
            if max_dots_amount == 0 {
                let nothing = Seq::<(u128, Coordinates)>::empty();
                assert(drawn_in_world(nothing) && field@ == drawn_dots(nothing));
            } else {
                let drawn = choose|drawn: Seq<(u128, Coordinates)>|
                    drawn.len() == max_dots_amount && drawn_in_world(drawn) && field@
                        == merged_dots(Map::empty(), drawn_dots(drawn));
                assert(merged_dots(Map::empty(), drawn_dots(drawn)) =~= drawn_dots(drawn));
            }
        }
        field
    }

    /// The dots that are visible in the rectangle of a dot query around
    /// `player`, in coordinates relative to the rectangle's min corner.
    pub fn find_viewport_dots(&self, viewport_size: Coordinates, player: Coordinates) -> (visible:
        HashMap<u128, Coordinates>)
        ensures
            visible@ == visible_dots(self@, Viewport::of_dots(player, viewport_size)),
    {
        let rect = Viewport::for_dots(player, viewport_size);
        let ids = keys_of(&self.dots);
        let mut visible: HashMap<u128, Coordinates> = HashMap::new();
        let mut i: usize = 0;
        while i < ids.len()
            invariant
                i <= ids.len(),
                lists_keys(ids@, self.dots@),
                rect == Viewport::of_dots(player, viewport_size),
                forall|id: u128| #[trigger]
                    visible@.contains_key(id) ==> self.dots@.contains_key(id) && rect.holds_dot(
                        self.dots@[id],
                    ) && visible@[id] == rect.relative(self.dots@[id]),
                forall|j: int|
                    0 <= j < i && rect.holds_dot(self.dots@[#[trigger] ids@[j]])
                        ==> visible@.contains_key(ids@[j]),
            decreases ids.len() - i,
        {
            let id: u128 = ids[i];
            if let Some(dot) = self.dots.get(&id) {
                if rect.contains_dot(*dot) {
                    visible.insert(id, rect.translate(*dot));
                }
            }
            i = i + 1;
        }
        proof {
            let wanted = visible_dots(self@, rect);
            assert forall|id: u128| wanted.contains_key(id) implies visible@.contains_key(id) by {
                let j = choose|j: int| 0 <= j < ids@.len() && ids@[j] == id;
                assert(visible@.contains_key(ids@[j]));
            }
            assert(visible@ =~= wanted);
        }
        visible
    }

    /// Answers a dot query.
    pub fn get_dots(&self, message: GetDots) -> (result: GetDotsResult)
        ensures
            result.player_id == message.id,
            result.dots@ == visible_dots(
                self@,
                Viewport::of_dots(message.coordinates, message.viewport_size),
            ),
    {
        let dots = self.find_viewport_dots(message.viewport_size, message.coordinates);
        GetDotsResult { dots, player_id: message.id }
    }

    /// Deletes the listed dots. An identifier that names no dot, or that is
    /// listed a second time, changes nothing.
    pub fn delete_dots(&mut self, message: DeleteDots)
        requires
            old(self).wf(),
        ensures
            final(self).wf(),
            final(self).capacity() == old(self).capacity(),
            final(self)@ == old(self)@.remove_keys(message.0@.to_set()),
            final(self).count() == old(self).count() - old(self)@.dom().intersect(
                message.0@.to_set(),
            ).len(),
    {
        let ids = message.0;
        let mut i: usize = 0;
        while i < ids.len()
            invariant
                i <= ids.len(),
                self.wf(),
                self.max_dots_amount == old(self).max_dots_amount,
                self.dots@ == old(self).dots@.remove_keys(ids@.take(i as int).to_set()),
            decreases ids.len() - i,
        {
            let id: u128 = ids[i];
            if self.dots.contains_key(&id) {
                self.dots.remove(&id);
                self.dots_count = self.dots_count - 1;
            }
            proof {
                lemma_take_one_more(ids@, i as int);
                assert(self.dots@ =~= old(self).dots@.remove_keys(
                    ids@.take(i as int + 1).to_set(),
                ));
            }
            i = i + 1;
        }
        proof {
            assert(ids@.take(ids@.len() as int) =~= ids@);
            lemma_remove_keys_count(old(self)@, ids@.to_set());
        }
    }

    /// Merges `fresh` into the field, if the field has room for every dot of
    /// it. A fresh dot whose identifier is already taken gives way to the dot
    /// that is there. Without room for all of them, nothing changes.
    pub fn add_dots(&mut self, fresh: &HashMap<u128, Coordinates>) -> (added: bool)
        requires
            old(self).wf(),
        ensures
            final(self).wf(),
            final(self).capacity() == old(self).capacity(),
            added == (old(self).count() + fresh@.len() <= old(self).capacity()),
            added ==> final(self)@ == merged_dots(old(self)@, fresh@),
            !added ==> final(self)@ == old(self)@,
    {
        let room: u32 = self.max_dots_amount - self.dots_count;
        if fresh.len() > room as usize {
            return false;
        }
        let ids = keys_of(fresh);
        let mut i: usize = 0;
        while i < ids.len()
            invariant
                i <= ids.len(),
                lists_keys(ids@, fresh@),
                ids@.len() == fresh@.len(),
                self.max_dots_amount == old(self).max_dots_amount,
                old(self).wf(),
                old(self).dots_count + ids@.len() <= old(self).max_dots_amount,
                self.dots@.dom().finite(),
                self.dots_count == self.dots@.len(),
                self.dots_count <= old(self).dots_count + i,
                self.dots@ == merged_dots(
                    old(self).dots@,
                    fresh@.restrict(ids@.take(i as int).to_set()),
                ),
            decreases ids.len() - i,
        {
            let id: u128 = ids[i];
            if !self.dots.contains_key(&id) {
                if let Some(dot) = fresh.get(&id) {
                    self.dots.insert(id, *dot);
                    self.dots_count = self.dots_count + 1;
                }
            }
            proof {
                lemma_take_one_more(ids@, i as int);
                assert(self.dots@ =~= merged_dots(
                    old(self).dots@,
                    fresh@.restrict(ids@.take(i as int + 1).to_set()),
                ));
            }
            i = i + 1;
        }
        proof {
            assert(ids@.take(ids@.len() as int) =~= ids@);
        }
        true
    }

    /// One regeneration tick: a field below its capacity draws as many random
    /// dots as it lacks and merges them in; a full field stays as it is. The
    /// dots that were there stay, and the field never exceeds its capacity.
    pub fn regenerate(&mut self)
        requires
            old(self).wf(),
        ensures
            final(self).wf(),
            final(self).capacity() == old(self).capacity(),
            old(self)@.submap_of(final(self)@),
            old(self).count() >= old(self).capacity() ==> final(self)@ == old(self)@,
            old(self).count() < old(self).capacity() ==> exists|drawn: Seq<(u128, Coordinates)>|
                drawn.len() == old(self).capacity() - old(self).count() && drawn_in_world(drawn)
                    && final(self)@ == merged_dots(old(self)@, drawn_dots(drawn)),
            forall|id: u128|
                #![trigger final(self)@.contains_key(id)]
                final(self)@.contains_key(id) && !old(self)@.contains_key(id)
                    ==> final(self)@[id].in_world(),
    {
        if self.dots_count < self.max_dots_amount {
            let fresh = generate_dots(self.max_dots_amount - self.dots_count);
            self.add_dots(&fresh);
        }
    }
}

impl Default for Dots {
    /// An empty field of the default capacity.
    fn default() -> (field: Dots)
        ensures
            field.wf(),
            field@ == Map::<u128, Coordinates>::empty(),
            field.capacity() == MAX_DOTS_AMOUNT,
    {
        Dots::new(MAX_DOTS_AMOUNT)
    }
}

/// A dot that a query shows is a dot of the field that lies in the queried
/// rectangle, and its shown position added to the rectangle's min corner is
/// its position in the world.
pub proof fn lemma_visible_dots_translate_back(
    dots: Map<u128, Coordinates>,
    rect: Viewport,
    id: u128,
)
    requires
        visible_dots(dots, rect).contains_key(id),
    ensures
        dots.contains_key(id),
        rect.holds_dot(dots[id]),
        visible_dots(dots, rect)[id].x + rect.min_x == dots[id].x,
        visible_dots(dots, rect)[id].y + rect.min_y == dots[id].y,
{
}

/// Deleting a set of dots that all exist takes exactly that many dots away,
/// and none of them can be found afterwards.
pub proof fn lemma_delete_existing(dots: Map<u128, Coordinates>, ids: Set<u128>)
    requires
        dots.dom().finite(),
        ids.subset_of(dots.dom()),
    ensures
        dots.remove_keys(ids).len() == dots.len() - ids.len(),
        forall|id: u128| ids.contains(id) ==> !dots.remove_keys(ids).contains_key(id),
{
    lemma_remove_keys_count(dots, ids);
    assert(dots.dom().intersect(ids) =~= ids);
}

/// Deleting dots that do not exist changes nothing.
pub proof fn lemma_delete_unknown(dots: Map<u128, Coordinates>, ids: Set<u128>)
    requires
        ids.disjoint(dots.dom()),
    ensures
        dots.remove_keys(ids) == dots,
{
}

/// Merging fresh dots into a field adds at most as many dots as are merged.
pub proof fn lemma_merge_bounded(dots: Map<u128, Coordinates>, fresh: Map<u128, Coordinates>)
    requires
        dots.dom().finite(),
        fresh.dom().finite(),
    ensures
        merged_dots(dots, fresh).dom().finite(),
        merged_dots(dots, fresh).len() <= dots.len() + fresh.len(),
        dots.submap_of(merged_dots(dots, fresh)),
{
    assert(merged_dots(dots, fresh).dom() =~= fresh.dom().union(dots.dom()));
    vstd::set_lib::lemma_len_union(fresh.dom(), dots.dom());
}

/// A field below its capacity is full again after it has merged as many
/// fresh dots as it lacked, provided their identifiers are new to it.
pub proof fn lemma_refill_reaches_capacity(
    dots: Map<u128, Coordinates>,
    fresh: Map<u128, Coordinates>,
    capacity: nat,
)
    requires
        dots.dom().finite(),
        fresh.dom().finite(),
        dots.len() <= capacity,
        fresh.len() == capacity - dots.len(),
        fresh.dom().disjoint(dots.dom()),
    ensures
        merged_dots(dots, fresh).len() == capacity,
{
    vstd::map_lib::lemma_disjoint_union_size(fresh, dots);
}

/// Removing a set of keys from a finite map takes away as many entries as
/// there are keys of the set among the map's own.
pub proof fn lemma_remove_keys_count(dots: Map<u128, Coordinates>, ids: Set<u128>)
    requires
        dots.dom().finite(),
    ensures
        dots.remove_keys(ids).dom().finite(),
        dots.remove_keys(ids).len() == dots.len() - dots.dom().intersect(ids).len(),
{
    let hit = dots.dom().intersect(ids);
    assert(dots.remove_keys(ids) =~= dots.remove_keys(hit));
    assert(dots.remove_keys(ids).dom() =~= dots.dom().difference(ids));
    vstd::set_lib::lemma_len_intersect(dots.dom(), ids);
    dots.lemma_remove_keys_len(hit);
}

} // verus!
