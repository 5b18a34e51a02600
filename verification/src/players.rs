//! The player registry: creating players, moving them, resolving the
//! collision that a move causes, and listing the players that one of them sees.

use vstd::prelude::*;
use std::collections::HashMap;
use crate::collections::{
    keys_of,
    lemma_contains_first_or_rest,
    lemma_contains_last_or_before,
    lists_keys,
};
use crate::consts::DEFAULT_PLAYER_SIZE;
use crate::geometry::{overlap, squares_overlap, Coordinates, Viewport};
use crate::utils::{generate_coordinates, random_id};

verus! {

/// Asks for a new player whose viewport has the given size.
#[derive(Debug, Clone, Copy)]
pub struct CreatePlayer(pub Coordinates);

/// Asks for the player `id` to take the size `size` and to move by `moved`.
#[derive(Debug, Clone, Copy)]
pub struct MovePlayer {
    pub id: u128,
    pub moved: Coordinates,
    pub size: u32,
}

/// Asks for the player with the given identifier.
#[derive(Debug, Clone, Copy)]
pub struct GetPlayer(pub u128);

/// Asks for the players that the player with the given identifier sees.
#[derive(Debug, Clone, Copy)]
pub struct GetPlayersInViewport(pub u128);

/// The identifier and the position of a player that was created.
#[derive(Debug, Clone, Copy)]
pub struct CreatePlayerResult {
    pub id: u128,
    pub coordinates: Coordinates,
}

/// The collision that a move caused, if it caused one that the mover wins.
#[derive(Debug, Clone, Copy)]
pub struct MovePlayerResult(pub Option<CollisionData>);

/// The position and size of each player that is seen.
#[derive(Debug)]
pub struct GetPlayersInViewportResult(pub Vec<(Coordinates, u32)>);

/// No player has the identifier that was asked for.
#[derive(Debug, Clone, Copy, PartialEq, Eq, Structural)]
pub struct NotFound;

/// A player: a square with its top-left corner at `coordinates`.
#[derive(Debug, Clone, Copy, PartialEq, Eq, Structural)]
pub struct Player {
    pub size: u32,
    pub coordinates: Coordinates,
    pub viewport_size: Coordinates,
}

/// A collision that the player `win_id` wins against the player `lose_id`.
/// `win_size` is the sum of both sizes; it is wider than a size, so that the
/// sum always fits.
#[derive(Debug, Clone, Copy, PartialEq, Eq, Structural)]
pub struct CollisionData {
    pub win_id: u128,
    pub win_size: u64,
    pub lose_id: u128,
}

/// The player registry.
#[derive(Debug)]
pub struct Players {
    players: HashMap<u128, Player>,
    players_count: u32,
}

/// The registry `players` after the player `id` has taken the size `size` and
/// moved by `moved`. Without such a player nothing changes.
pub open spec fn moved_players(
    players: Map<u128, Player>,
    id: u128,
    size: u32,
    moved: Coordinates,
) -> Map<u128, Player> {
    if players.contains_key(id) {
        players.insert(
            id,
            Player {
                size,
                coordinates: players[id].coordinates.moved_by(moved),
                viewport_size: players[id].viewport_size,
            },
        )
    } else {
        players
    }
}

/// Whether the player `other` stands in the way of the player `id`: it is
/// another player of the registry, and the two squares overlap.
pub open spec fn blocks(players: Map<u128, Player>, id: u128, other: u128) -> bool {
    &&& other != id
    &&& players.contains_key(other)
    &&& squares_overlap(
        players[id].coordinates,
        players[id].size,
        players[other].coordinates,
        players[other].size,
    )
}

/// What comes of the player `id` meeting the player `other`: the mover wins
/// if it is strictly larger, and nothing happens otherwise.
pub open spec fn outcome(players: Map<u128, Player>, id: u128, other: u128) -> Option<
    CollisionData,
> {
    if players[id].size > players[other].size {
        Some(
            CollisionData {
                win_id: id,
                win_size: (players[id].size + players[other].size) as u64,
                lose_id: other,
            },
        )
    } else {
        None
    }
}

/// The collision of the player `id` when the others are looked at in the
/// order `order`: the first one that stands in its way decides.
pub open spec fn first_collision(players: Map<u128, Player>, id: u128, order: Seq<u128>) -> Option<
    CollisionData,
>
    decreases order.len(),
{
    if order.len() == 0 {
        None
    } else if blocks(players, id, order.first()) {
        outcome(players, id, order.first())
    } else {
        first_collision(players, id, order.drop_first())
    }
}

/// The collision of the player `id` with the others looked at in the order
/// `order`; none where the registry has no such player.
pub open spec fn collision_in_order(players: Map<u128, Player>, id: u128, order: Seq<u128>) -> Option<
    CollisionData,
> {
    if players.contains_key(id) {
        first_collision(players, id, order)
    } else {
        None
    }
}

/// Whether the player `id` sees the player `other`: it is another player of
/// the registry, and its square meets the rectangle of a player query around
/// the player `id`.
pub open spec fn sees(players: Map<u128, Player>, id: u128, other: u128) -> bool {
    &&& other != id
    &&& players.contains_key(other)
    &&& Viewport::of_players(players[id].coordinates, players[id].viewport_size).meets_square(
        players[other].coordinates,
        players[other].size,
    )
}

/// The players of `order` that the player `id` sees, in that order.
pub open spec fn seen_among(players: Map<u128, Player>, id: u128, order: Seq<u128>) -> Seq<
    (Coordinates, u32),
>
    decreases order.len(),
{
    if order.len() == 0 {
        Seq::empty()
    } else {
        let rest = seen_among(players, id, order.drop_last());
        if sees(players, id, order.last()) {
            rest.push((players[order.last()].coordinates, players[order.last()].size))
        } else {
            rest
        }
    }
}

/// The players that the player `id` sees when the others are looked at in
/// the order `order`; none where the registry has no such player.
pub open spec fn seen_in_order(players: Map<u128, Player>, id: u128, order: Seq<u128>) -> Seq<
    (Coordinates, u32),
> {
    if players.contains_key(id) {
        seen_among(players, id, order)
    } else {
        Seq::empty()
    }
}

impl Player {
    /// A player of the default size at a random point of the world.
    pub fn new(viewport_size: Coordinates) -> (player: Player)
        ensures
            player.size == DEFAULT_PLAYER_SIZE,
            player.coordinates.in_world(),
            player.viewport_size == viewport_size,
    {
        Player { size: DEFAULT_PLAYER_SIZE, coordinates: generate_coordinates(), viewport_size }
    }
}

impl View for Players {
    type V = Map<u128, Player>;

    closed spec fn view(&self) -> Map<u128, Player> {
        self.players@
    }
}

impl Players {
    /// The count that the registry keeps of its players.
    pub closed spec fn count(&self) -> nat {
        self.players_count as nat
    }

    /// The invariant of the registry: the count is the number of players.
    pub open spec fn wf(&self) -> bool {
        &&& self@.dom().finite()
        &&& self.count() == self@.len()
    }

    /// A registry of the given players, if `players_count` is their number.
    pub fn new(players: HashMap<u128, Player>, players_count: u32) -> (registry: Option<Players>)
        ensures
            registry is Some <==> players@.len() == players_count,
            registry matches Some(r) ==> r.wf() && r@ == players@,
    {
        if players.len() == players_count as usize {
            Some(Players { players, players_count })
        } else {
            None
        }
    }

    /// The identifiers of all players, each once, in the order in which the
    /// registry hands them out.
    pub fn ids(&self) -> (order: Vec<u128>)
        ensures
            lists_keys(order@, self@),
    {
        keys_of(&self.players)
    }

    /// The count that the registry keeps of its players.
    pub fn players_count(&self) -> (count: u32)
        ensures
            count == self.count(),
    {
        self.players_count
    }

    /// The number of players in the registry.
    pub fn len(&self) -> (len: usize)
        ensures
            len == self@.len(),
    {
        self.players.len()
    }

    /// Stores `player` under `id` and reports the identifier and the
    /// position. A player that had this identifier is replaced.
    pub fn add_player(&mut self, id: u128, player: Player) -> (result: CreatePlayerResult)
        requires
            old(self).wf(),
            old(self).count() < u32::MAX,
        ensures
            final(self).wf(),
            final(self)@ == old(self)@.insert(id, player),
            result.id == id,
            result.coordinates == player.coordinates,
    {
        if self.players.insert(id, player).is_none() {
            self.players_count = self.players_count + 1;
        } else {
        }
        CreatePlayerResult { id, coordinates: player.coordinates }
    }

    /// Creates a player of the default size at a random point of the world,
    /// under a random identifier.
    pub fn create_player(&mut self, message: CreatePlayer) -> (result: CreatePlayerResult)
        requires
            old(self).wf(),
            old(self).count() < u32::MAX,
        ensures
            final(self).wf(),
            result.coordinates.in_world(),
            final(self)@ == old(self)@.insert(
                result.id,
                Player {
                    size: DEFAULT_PLAYER_SIZE,
                    coordinates: result.coordinates,
                    viewport_size: message.0,
                },
            ),
    {
        let new_player = Player::new(message.0);
        let player_id: u128 = random_id();
        self.add_player(player_id, new_player)
    }

    /// Whether `move_player` can carry out the move: the registry has no such
    /// player, or the player's new coordinates fit.
    pub fn accepts_move(&self, message: &MovePlayer) -> (accepted: bool)
        ensures
            accepted == (self@.contains_key(message.id) ==> self@[message.id].coordinates.can_move_by(
                message.moved,
            )),
    {
        match self.players.get(&message.id) {
            Some(player) => player.coordinates.checked_move(message.moved).is_some(),
            None => true,
        }
    }

    /// The collision of the player `id` when the others are looked at in the
    /// order `order`.
    pub fn collision_in_order(&self, id: u128, order: &Vec<u128>) -> (collision: Option<
        CollisionData,
    >)
        ensures
            collision == collision_in_order(self@, id, order@),
    {
        let mover = match self.players.get(&id) {
            Some(player) => *player,
            None => { return None; },
        };
        let mut i: usize = 0;
        assert(order@.skip(0) =~= order@);
        while i < order.len()
            invariant
                i <= order.len(),
                self.players@.contains_key(id),
                mover == self.players@[id],
                first_collision(self.players@, id, order@) == first_collision(
                    self.players@,
                    id,
                    order@.skip(i as int),
                ),
            decreases order.len() - i,
        {
            let other_id: u128 = order[i];
            proof {
                let rest = order@.skip(i as int);
                assert(rest.drop_first() =~= order@.skip(i as int + 1));
            }
            if other_id != id {
                if let Some(other) = self.players.get(&other_id) {
                    if overlap(mover.coordinates, mover.size, other.coordinates, other.size) {
                        if mover.size > other.size {
                            return Some(
                                CollisionData {
                                    win_id: id,
                                    win_size: mover.size as u64 + other.size as u64,
                                    lose_id: other_id,
                                },
                            );
                        } else {
                            return None;
                        }
                    }
                }
            }
            i = i + 1;
        }
        None
    }

    /// Gives the player `id` its new size and moves it, then looks for the
    /// first other player that stands in its way. The order in which the
    /// others are looked at is the registry's own. Only the mover changes.
    pub fn move_player(&mut self, message: MovePlayer) -> (result: MovePlayerResult)
        requires
            old(self).wf(),
            old(self)@.contains_key(message.id) ==> old(self)@[message.id].coordinates.can_move_by(
                message.moved,
            ),
        ensures
            final(self).wf(),
            final(self).count() == old(self).count(),
            final(self)@ == moved_players(old(self)@, message.id, message.size, message.moved),
            !old(self)@.contains_key(message.id) ==> result.0 is None && final(self)@ == old(self)@,
            exists|order: Seq<u128>|
                lists_keys(order, final(self)@) && result.0 == collision_in_order(
                    final(self)@,
                    message.id,
                    order,
                ),
    {
        let id: u128 = message.id;
        let found = match self.players.get(&id) {
            Some(player) => Some(*player),
            None => None,
        };
        if let Some(player) = found {
            let moved = Player {
                size: message.size,
                coordinates: Coordinates {
                    x: player.coordinates.x + message.moved.x,
                    y: player.coordinates.y + message.moved.y,
                },
                viewport_size: player.viewport_size,
            };
            self.players.insert(id, moved);
        }
        let order = self.ids();
        let collision = self.collision_in_order(id, &order);
        MovePlayerResult(collision)
    }

    /// The player with the given identifier.
    pub fn get_player(&self, message: GetPlayer) -> (result: Result<Player, NotFound>)
        ensures
            match result {
                Ok(player) => self@.contains_key(message.0) && player == self@[message.0],
                Err(_) => !self@.contains_key(message.0),
            },
    {
        match self.players.get(&message.0) {
            Some(player) => Ok(*player),
            None => Err(NotFound),
        }
    }

    /// The players of `order` that the player `id` sees, in that order, each
    /// with its position in the world and its size.
    pub fn seen_in_order(&self, id: u128, order: &Vec<u128>) -> (seen: Vec<(Coordinates, u32)>)
        ensures
            seen@ == seen_in_order(self@, id, order@),
    {
        let mut seen: Vec<(Coordinates, u32)> = Vec::new();
        let viewer = match self.players.get(&id) {
            Some(player) => *player,
            None => { return seen; },
        };
        let rect = Viewport::for_players(viewer.coordinates, viewer.viewport_size);
        let mut i: usize = 0;
        while i < order.len()
            invariant
                i <= order.len(),
                self.players@.contains_key(id),
                rect == Viewport::of_players(
                    self.players@[id].coordinates,
                    self.players@[id].viewport_size,
                ),
                seen@ == seen_among(self.players@, id, order@.take(i as int)),
            decreases order.len() - i,
        {
            let other_id: u128 = order[i];
            proof {
                let next = order@.take(i as int + 1);
                assert(next.drop_last() =~= order@.take(i as int));
            }
            if other_id != id {
                if let Some(other) = self.players.get(&other_id) {
                    if rect.intersects(other.coordinates, other.size) {
                        seen.push((other.coordinates, other.size));
                    }
                }
            }
            i = i + 1;
        }
        assert(order@.take(order@.len() as int) =~= order@);
        seen
    }

    /// The players that the player with the given identifier sees, in the
    /// registry's own order; none where there is no such player.
    pub fn get_players_in_viewport(&self, message: GetPlayersInViewport) -> (result:
        GetPlayersInViewportResult)
        ensures
            !self@.contains_key(message.0) ==> result.0@ == Seq::<(Coordinates, u32)>::empty(),
            exists|order: Seq<u128>|
                lists_keys(order, self@) && result.0@ == seen_in_order(self@, message.0, order),
    {
        let order = self.ids();
        let seen = self.seen_in_order(message.0, &order);
        GetPlayersInViewportResult(seen)
    }
}

/// A move changes the mover alone: it takes the new size and is displaced
/// by the given amount, it keeps its viewport, and every other player stays
/// as it was. A move of a player that the registry does not have changes
/// nothing.
pub proof fn lemma_move_changes_only_mover(
    players: Map<u128, Player>,
    id: u128,
    size: u32,
    moved: Coordinates,
)
    ensures
        moved_players(players, id, size, moved).dom() == players.dom(),
        forall|other: u128|
            other != id && players.contains_key(other) ==> #[trigger] moved_players(
                players,
                id,
                size,
                moved,
            )[other] == players[other],
        players.contains_key(id) ==> {
            let after = moved_players(players, id, size, moved)[id];
            &&& after.size == size
            &&& after.coordinates == players[id].coordinates.moved_by(moved)
            &&& after.viewport_size == players[id].viewport_size
        },
        !players.contains_key(id) ==> moved_players(players, id, size, moved) == players,
{
}

/// An identifier that names no player moves nothing, collides with nobody
/// and sees nobody.
pub proof fn lemma_unknown_player_is_benign(
    players: Map<u128, Player>,
    id: u128,
    size: u32,
    moved: Coordinates,
    order: Seq<u128>,
)
    requires
        !players.contains_key(id),
    ensures
        moved_players(players, id, size, moved) == players,
        collision_in_order(players, id, order) is None,
        seen_in_order(players, id, order) == Seq::<(Coordinates, u32)>::empty(),
{
}

/// A collision that a scan reports is won by the mover against a player of
/// the scanned order that stands in its way and is strictly smaller, and the
/// new size is the sum of both.
pub proof fn lemma_collision_is_won(players: Map<u128, Player>, id: u128, order: Seq<u128>)
    ensures
        first_collision(players, id, order) matches Some(c) ==> {
            &&& c.win_id == id
            &&& order.contains(c.lose_id)
            &&& blocks(players, id, c.lose_id)
            &&& players[id].size > players[c.lose_id].size
            &&& c.win_size == players[id].size + players[c.lose_id].size
        },
    decreases order.len(),
{
    if let Some(c) = first_collision(players, id, order) {
        lemma_contains_first_or_rest(order, c.lose_id);
        if !blocks(players, id, order.first()) {
            lemma_collision_is_won(players, id, order.drop_first());
        }
    }
}

/// Where exactly one player of the scanned order stands in the mover's way,
/// that player decides, whatever the order: the mover wins if it is strictly
/// larger, and nothing happens otherwise.
pub proof fn lemma_single_blocker_decides(
    players: Map<u128, Player>,
    id: u128,
    order: Seq<u128>,
    other: u128,
)
    requires
        order.contains(other),
        blocks(players, id, other),
        forall|o: u128| order.contains(o) && blocks(players, id, o) ==> o == other,
    ensures
        first_collision(players, id, order) == outcome(players, id, other),
    decreases order.len(),
{
    lemma_contains_first_or_rest(order, other);
    lemma_contains_first_or_rest(order, order.first());
    if !blocks(players, id, order.first()) {
        let rest = order.drop_first();
        assert forall|o: u128| rest.contains(o) && blocks(players, id, o) implies o == other by {
            lemma_contains_first_or_rest(order, o);
        }
        lemma_single_blocker_decides(players, id, rest, other);
    }
}

/// A mover that is strictly larger than every player of the scanned order
/// that stands in its way, and has one in its way, wins a collision.
pub proof fn lemma_larger_mover_wins(players: Map<u128, Player>, id: u128, order: Seq<u128>)
    requires
        exists|o: u128| order.contains(o) && blocks(players, id, o),
        forall|o: u128|
            order.contains(o) && blocks(players, id, o) ==> players[id].size > players[o].size,
    ensures
        first_collision(players, id, order) is Some,
    decreases order.len(),
{
    let blocker = choose|o: u128| order.contains(o) && blocks(players, id, o);
    lemma_contains_first_or_rest(order, blocker);
    lemma_contains_first_or_rest(order, order.first());
    if !blocks(players, id, order.first()) {
        let rest = order.drop_first();
        assert(rest.contains(blocker) && blocks(players, id, blocker));
        assert forall|o: u128| rest.contains(o) && blocks(players, id, o) implies players[id].size
            > players[o].size by {
            lemma_contains_first_or_rest(order, o);
        }
        lemma_larger_mover_wins(players, id, rest);
    }
}

/// A mover that is not strictly larger than any player of the scanned order
/// that stands in its way causes no collision; in particular one that has
/// nobody in its way.
pub proof fn lemma_smaller_mover_yields(players: Map<u128, Player>, id: u128, order: Seq<u128>)
    requires
        forall|o: u128|
            order.contains(o) && blocks(players, id, o) ==> players[id].size <= players[o].size,
    ensures
        first_collision(players, id, order) is None,
    decreases order.len(),
{
    if order.len() > 0 {
        lemma_contains_first_or_rest(order, order.first());
        if !blocks(players, id, order.first()) {
            let rest = order.drop_first();
            assert forall|o: u128| rest.contains(o) && blocks(players, id, o) implies players[id].size
                <= players[o].size by {
                lemma_contains_first_or_rest(order, o);
            }
            lemma_smaller_mover_yields(players, id, rest);
        }
    }
}

/// Whether `entry` is what the player `id` is shown of the player `other`:
/// the player `id` sees it, and `entry` is its position and size.
pub open spec fn shown_as(
    players: Map<u128, Player>,
    id: u128,
    other: u128,
    entry: (Coordinates, u32),
) -> bool {
    sees(players, id, other) && entry == (players[other].coordinates, players[other].size)
}

/// What a player sees holds exactly the players of the scanned order that it
/// sees, each with its position and size.
pub proof fn lemma_seen_members(
    players: Map<u128, Player>,
    id: u128,
    order: Seq<u128>,
    entry: (Coordinates, u32),
)
    ensures
        seen_among(players, id, order).contains(entry) <==> exists|o: u128|
            order.contains(o) && shown_as(players, id, o, entry),
        seen_among(players, id, order).len() <= order.len(),
    decreases order.len(),
{
    if order.len() > 0 {
        let before = order.drop_last();
        let last = order.last();
        let seen_before = seen_among(players, id, before);
        lemma_seen_members(players, id, before, entry);
        lemma_contains_last_or_before(order, last);
        if sees(players, id, last) {
            let shown_last = (players[last].coordinates, players[last].size);
            assert(seen_before.push(shown_last).drop_last() =~= seen_before);
            lemma_contains_last_or_before(seen_before.push(shown_last), entry);
        }
        if seen_among(players, id, order).contains(entry) {
            if seen_before.contains(entry) {
                let o = choose|o: u128| before.contains(o) && shown_as(players, id, o, entry);
                lemma_contains_last_or_before(order, o);
            } else {
                assert(order.contains(last) && shown_as(players, id, last, entry));
            }
        }
        if exists|o: u128| order.contains(o) && shown_as(players, id, o, entry) {
            let o = choose|o: u128| order.contains(o) && shown_as(players, id, o, entry);
            lemma_contains_last_or_before(order, o);
        }
    }
}

/// The players that a player sees, as a set of identifiers.
pub open spec fn seen_ids(players: Map<u128, Player>, id: u128) -> Set<u128> {
    players.dom().filter(|other: u128| sees(players, id, other))
}

/// However the players of a registry are ordered, a player sees as many of
/// them as there are players in the set of those that it sees.
pub proof fn lemma_seen_count(players: Map<u128, Player>, id: u128, order: Seq<u128>)
    requires
        players.dom().finite(),
        lists_keys(order, players),
    ensures
        seen_among(players, id, order).len() == seen_ids(players, id).len(),
{
    lemma_seen_count_among(players, id, order);
    assert(order.to_set().filter(|other: u128| sees(players, id, other)) =~= seen_ids(
        players,
        id,
    ));
}

/// What a player sees among players that are listed once each is as long as
/// the set of the listed players that it sees is large.
proof fn lemma_seen_count_among(players: Map<u128, Player>, id: u128, order: Seq<u128>)
    requires
        order.no_duplicates(),
    ensures
        order.to_set().finite(),
        seen_among(players, id, order).len() == order.to_set().filter(
            |other: u128| sees(players, id, other),
        ).len(),
    decreases order.len(),
{
    let wanted = |other: u128| sees(players, id, other);
    vstd::seq_lib::seq_to_set_is_finite(order);
    if order.len() == 0 {
        assert(order.to_set().filter(wanted) =~= Set::<u128>::empty());
    } else {
        let before = order.drop_last();
        let last = order.last();
        lemma_seen_count_among(players, id, before);
        assert(!before.contains(last)) by {
            if before.contains(last) {
                let j = choose|j: int| 0 <= j < before.len() && before[j] == last;
                assert(order[j] == order[order.len() - 1]);
            }
        }
        assert(order.to_set() =~= before.to_set().insert(last)) by {
            assert forall|o: u128| order.to_set().contains(o) <==> before.to_set().insert(
                last,
            ).contains(o) by {
                lemma_contains_last_or_before(order, o);
            }
        }
        if sees(players, id, last) {
            assert(order.to_set().filter(wanted) =~= before.to_set().filter(wanted).insert(last));
        } else {
            assert(order.to_set().filter(wanted) =~= before.to_set().filter(wanted));
        }
    }
}

impl Default for Players {
    /// A registry without players.
    fn default() -> (registry: Players)
        ensures
            registry.wf(),
            registry@ == Map::<u128, Player>::empty(),
    {
        Players { players: HashMap::new(), players_count: 0 }
    }
}

} // verus!
