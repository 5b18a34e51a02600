//! The world coordinator: which session plays which player, and what is
//! asked of the player registry and of the dot field for each request and on
//! each tick.
//!
//! The coordinator owns the connection map and nothing else. What it wants
//! of the registry and of the field it says in requests; whoever holds them
//! carries the requests out and hands the answers back. For a caller that
//! holds all three, `handle_connect` and `handle_move` do the whole sequence.

use vstd::prelude::*;
use std::collections::HashMap;
use crate::collections::{keys_of, lists_keys};
use crate::consts::{DEFAULT_PLAYER_SIZE, WORLD_X_SIZE, WORLD_Y_SIZE};
use crate::dots::{visible_dots, DeleteDots, Dots, GetDots, GetDotsResult};
use crate::geometry::{Coordinates, Viewport};
use crate::players::{
    collision_in_order,
    moved_players,
    CreatePlayer,
    CreatePlayerResult,
    GetPlayer,
    GetPlayersInViewport,
    MovePlayerResult,
    Player,
    Players,
};
use crate::server_messages::CreateResponse;
use crate::ws::{ConnectPlayer, DisconnectPlayer};

verus! {

/// The world coordinator.
#[derive(Debug)]
pub struct World {
    players_connected: HashMap<u64, u128>,
}

/// The size of the world.
pub open spec fn world_size() -> Coordinates {
    Coordinates { x: WORLD_X_SIZE, y: WORLD_Y_SIZE }
}

/// The connections of `order`, each as the session's handle and its player.
pub open spec fn connections_in_order(connections: Map<u64, u128>, order: Seq<u64>) -> Seq<
    (u64, u128),
> {
    order.map_values(|address: u64| (address, connections[address]))
}

/// The deletion that a move asks of the dot field: of the dots that it
/// reports as consumed, if it reports any.
pub open spec fn deletion_of(consumed: Seq<u128>) -> Option<Seq<u128>> {
    if consumed.len() > 0 {
        Some(consumed)
    } else {
        None
    }
}

impl View for World {
    type V = Map<u64, u128>;

    closed spec fn view(&self) -> Map<u64, u128> {
        self.players_connected@
    }
}

impl World {
    /// A coordinator without connections.
    pub fn new() -> (world: World)
        ensures
            world@ == Map::<u64, u128>::empty(),
    {
        World { players_connected: HashMap::new() }
    }

    /// The player of the session `address`, if the session is connected.
    pub fn player_of(&self, address: u64) -> (id: Option<u128>)
        ensures
            id == (if self@.contains_key(address) {
                Some(self@[address])
            } else {
                None
            }),
    {
        match self.players_connected.get(&address) {
            Some(id) => Some(*id),
            None => None,
        }
    }

    /// The connections, each once, in the order in which the map hands them
    /// out.
    pub fn connections(&self) -> (list: Vec<(u64, u128)>)
        ensures
            list@.len() == self@.len(),
            exists|order: Seq<u64>|
                lists_keys(order, self@) && list@ == connections_in_order(self@, order),
    {
        let order = keys_of(&self.players_connected);
        let mut list: Vec<(u64, u128)> = Vec::new();
        let mut i: usize = 0;
        while i < order.len()
            invariant
                i <= order.len(),
                lists_keys(order@, self.players_connected@),
                list@ == connections_in_order(self.players_connected@, order@.take(i as int)),
            decreases order.len() - i,
        {
            let address: u64 = order[i];
            if let Some(id) = self.players_connected.get(&address) {
                list.push((address, *id));
            }
            assert(list@ =~= connections_in_order(
                self.players_connected@,
                order@.take(i as int + 1),
            ));
            i = i + 1;
        }
        assert(lists_keys(order@, self@) && list@ == connections_in_order(self@, order@));
        list
    }

    /// First step of a connect: what is asked of the player registry.
    pub fn create_player_request(message: &ConnectPlayer) -> (request: CreatePlayer)
        ensures
            request.0 == message.request.viewport_size,
    {
        CreatePlayer(message.request.viewport_size)
    }

    /// Second step of a connect: what is asked of the dot field once the
    /// registry has created the player. The query is made at the position
    /// that the registry gave the player.
    pub fn dots_request(new_player: CreatePlayerResult, viewport_size: Coordinates) -> (request:
        GetDots)
        ensures
            request.id == new_player.id,
            request.coordinates == new_player.coordinates,
            request.viewport_size == viewport_size,
    {
        GetDots { id: new_player.id, coordinates: new_player.coordinates, viewport_size }
    }

    /// Last step of a connect: the session `address` is recorded as playing
    /// the player that the dots were queried for, and the reply is made up.
    pub fn complete_connect(&mut self, address: u64, result: GetDotsResult) -> (response:
        CreateResponse)
        ensures
            final(self)@ == old(self)@.insert(address, result.player_id),
            response.id == result.player_id,
            response.world_size == world_size(),
            response.dots == result.dots,
    {
        let response = CreateResponse {
            id: result.player_id,
            world_size: Coordinates { x: WORLD_X_SIZE, y: WORLD_Y_SIZE },
            dots: result.dots,
        };
        self.players_connected.insert(address, response.id);
        response
    }

    /// A whole connect: a player is created in `players`, the dots that it
    /// sees from where it was put are queried from `dots`, the session is
    /// recorded as playing it, and the reply is made up.
    pub fn handle_connect(&mut self, players: &mut Players, dots: &Dots, message: ConnectPlayer) -> (response:
        CreateResponse)
        requires
            old(players).wf(),
            old(players).count() < u32::MAX,
        ensures
            final(players).wf(),
            final(players)@.contains_key(response.id),
            final(players)@ == old(players)@.insert(response.id, final(players)@[response.id]),
            final(players)@[response.id].size == DEFAULT_PLAYER_SIZE,
            final(players)@[response.id].viewport_size == message.request.viewport_size,
            final(players)@[response.id].coordinates.in_world(),
            response.dots@ == visible_dots(
                dots@,
                Viewport::of_dots(
                    final(players)@[response.id].coordinates,
                    message.request.viewport_size,
                ),
            ),
            response.world_size == world_size(),
            final(self)@ == old(self)@.insert(message.address, response.id),
    {
        let new_player = players.create_player(World::create_player_request(&message));
        let result = dots.get_dots(World::dots_request(new_player, message.request.viewport_size));
        self.complete_connect(message.address, result)
    }

    /// A disconnect: the session's connection is dropped. The player stays
    /// in the registry.
    pub fn handle_disconnect(&mut self, message: DisconnectPlayer)
        ensures
            final(self)@ == old(self)@.remove(message.address),
    {
        self.players_connected.remove(&message.address);
    }

    /// What a move asks of the dot field and of the player registry: the
    /// deletion of the dots that it reports as consumed, if it reports any,
    /// and in any case the move itself.
    pub fn move_requests(message: crate::ws::MovePlayer) -> (requests: (
        Option<DeleteDots>,
        crate::players::MovePlayer,
    ))
        ensures
            match requests.0 {
                Some(deletion) => deletion_of(message.request.dots_consumed@) == Some(deletion.0@),
                None => deletion_of(message.request.dots_consumed@) is None,
            },
            requests.1.id == message.request.id,
            requests.1.size == message.request.size,
            requests.1.moved == message.request.moved,
    {
        let movement = crate::players::MovePlayer {
            id: message.request.id,
            size: message.request.size,
            moved: message.request.moved,
        };
        let deletion = if message.request.dots_consumed.len() > 0 {
            Some(DeleteDots(message.request.dots_consumed))
        } else {
            None
        };
        (deletion, movement)
    }

    /// A whole move: the consumed dots are deleted from `dots`, and the move
    /// is carried out in `players`.
    pub fn handle_move(players: &mut Players, dots: &mut Dots, message: crate::ws::MovePlayer) -> (result:
        MovePlayerResult)
        requires
            old(players).wf(),
            old(dots).wf(),
            old(players)@.contains_key(message.request.id) ==> old(
                players,
            )@[message.request.id].coordinates.can_move_by(message.request.moved),
        ensures
            final(dots).wf(),
            final(dots).capacity() == old(dots).capacity(),
            final(dots)@ == old(dots)@.remove_keys(message.request.dots_consumed@.to_set()),
            final(players).wf(),
            final(players)@ == moved_players(
                old(players)@,
                message.request.id,
                message.request.size,
                message.request.moved,
            ),
            exists|order: Seq<u128>|
                lists_keys(order, final(players)@) && result.0 == collision_in_order(
                    final(players)@,
                    message.request.id,
                    order,
                ),
    {
        let (deletion, movement) = World::move_requests(message);
        if let Some(deletion) = deletion {
            dots.delete_dots(deletion);
        }
        players.move_player(movement)
    }

    /// The dot tick: for each connected session, the player that is asked of
    /// the registry. Each is a unit of work of its own.
    pub fn dots_interval(&self) -> (requests: Vec<(u64, GetPlayer)>)
        ensures
            exists|order: Seq<u64>|
                lists_keys(order, self@) && requests@ == connections_in_order(
                    self@,
                    order,
                ).map_values(|c: (u64, u128)| (c.0, GetPlayer(c.1))),
    {
        let list = self.connections();
        let mut requests: Vec<(u64, GetPlayer)> = Vec::new();
        let mut i: usize = 0;
        while i < list.len()
            invariant
                i <= list.len(),
                requests@ == list@.take(i as int).map_values(
                    |c: (u64, u128)| (c.0, GetPlayer(c.1)),
                ),
            decreases list.len() - i,
        {
            requests.push((list[i].0, GetPlayer(list[i].1)));
            assert(requests@ =~= list@.take(i as int + 1).map_values(
                |c: (u64, u128)| (c.0, GetPlayer(c.1)),
            ));
            i = i + 1;
        }
        requests
    }

    /// The dot tick, second step: what is asked of the dot field once the
    /// registry has handed out the player `player_id`.
    pub fn player_dots_request(player_id: u128, player: Player) -> (request: GetDots)
        ensures
            request.id == player_id,
            request.coordinates == player.coordinates,
            request.viewport_size == player.viewport_size,
    {
        GetDots {
            id: player_id,
            coordinates: player.coordinates,
            viewport_size: player.viewport_size,
        }
    }

    /// The player tick: for each connected session, the query that is asked
    /// of the registry. Each is a unit of work of its own.
    pub fn players_interval(&self) -> (requests: Vec<(u64, GetPlayersInViewport)>)
        ensures
            exists|order: Seq<u64>|
                lists_keys(order, self@) && requests@ == connections_in_order(
                    self@,
                    order,
                ).map_values(|c: (u64, u128)| (c.0, GetPlayersInViewport(c.1))),
    {
        let list = self.connections();
        let mut requests: Vec<(u64, GetPlayersInViewport)> = Vec::new();
        let mut i: usize = 0;
        while i < list.len()
            invariant
                i <= list.len(),
                requests@ == list@.take(i as int).map_values(
                    |c: (u64, u128)| (c.0, GetPlayersInViewport(c.1)),
                ),
            decreases list.len() - i,
        {
            requests.push((list[i].0, GetPlayersInViewport(list[i].1)));
            assert(requests@ =~= list@.take(i as int + 1).map_values(
                |c: (u64, u128)| (c.0, GetPlayersInViewport(c.1)),
            ));
            i = i + 1;
        }
        requests
    }
}

impl Default for World {
    /// A coordinator without connections.
    fn default() -> (world: World)
        ensures
            world@ == Map::<u64, u128>::empty(),
    {
        World::new()
    }
}

} // verus!
