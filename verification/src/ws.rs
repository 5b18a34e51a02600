//! One client session: its keepalive clock and what it does with each
//! message that arrives.
//!
//! A session never reads a clock itself. Whoever drives it says what time it
//! is, in milliseconds on a clock that does not go back.

use vstd::prelude::*;
use crate::client_messages::{ClientRequests, CreateRequest, MoveRequest};
use crate::consts::CLIENT_TIMEOUT;
use crate::dots::GetDotsResult;
use crate::server_messages::DotsResponse;

verus! {

/// Tells the coordinator that the session `address` asks for a player.
#[derive(Debug, Clone, Copy, PartialEq, Eq, Structural)]
pub struct ConnectPlayer {
    pub request: CreateRequest,
    pub address: u64,
}

/// Tells the coordinator that the session `address` is gone.
#[derive(Debug, Clone, Copy, PartialEq, Eq, Structural)]
pub struct DisconnectPlayer {
    pub address: u64,
}

/// Tells the coordinator that the client of the session `address` has moved.
#[derive(Debug)]
pub struct MovePlayer {
    pub request: MoveRequest,
    pub address: u64,
}

/// A message that arrives at a session.
#[derive(Debug)]
pub enum Message {
    /// A ping of the transport, with its payload.
    Ping(String),
    /// A pong of the transport.
    Pong,
    /// A text payload, read as a request.
    Text(ClientRequests),
    /// Anything else.
    Other,
}

/// What a session does about a message.
#[derive(Debug)]
pub enum Action {
    /// Answer a ping with a pong that carries this payload.
    Pong(String),
    /// Ask the coordinator for a player, and send its reply to the client.
    Connect(ConnectPlayer),
    /// Tell the coordinator of the move. No reply is sent.
    Move(MovePlayer),
    /// Drop the payload: it is no request.
    Invalid,
    /// Do nothing.
    Nothing,
}

/// A client session.
#[derive(Debug, Clone, Copy)]
pub struct Ws {
    address: u64,
    ping_timestamp: u64,
}

/// Whether a session that was last heard of at `last` is overdue at `now`.
pub open spec fn timed_out(last: u64, now: u64) -> bool {
    now - last > CLIENT_TIMEOUT
}

/// What a session with the handle `address` does about `message`.
pub open spec fn action_for(address: u64, message: Message) -> Action {
    match message {
        Message::Ping(payload) => Action::Pong(payload),
        Message::Pong => Action::Nothing,
        Message::Text(ClientRequests::Create(request)) => Action::Connect(
            ConnectPlayer { request, address },
        ),
        Message::Text(ClientRequests::Move(request)) => Action::Move(MovePlayer { request, address }),
        Message::Text(ClientRequests::Invalid) => Action::Invalid,
        Message::Other => Action::Nothing,
    }
}

impl Ws {
    /// The handle by which the coordinator knows the session.
    pub closed spec fn handle(&self) -> u64 {
        self.address
    }

    /// The time at which the session was last heard of.
    pub closed spec fn last_heard(&self) -> u64 {
        self.ping_timestamp
    }

    /// A session with the handle `address` that starts at `now`.
    pub fn new(address: u64, now: u64) -> (session: Ws)
        ensures
            session.handle() == address,
            session.last_heard() == now,
    {
        Ws { address, ping_timestamp: now }
    }

    /// The handle by which the coordinator knows the session.
    pub fn address(&self) -> (address: u64)
        ensures
            address == self.handle(),
    {
        self.address
    }

    /// The time at which the session was last heard of.
    pub fn ping_timestamp(&self) -> (last: u64)
        ensures
            last == self.last_heard(),
    {
        self.ping_timestamp
    }

    /// The keepalive check, made every `PING_SEND_INTERVAL`: a session that
    /// has been silent for longer than `CLIENT_TIMEOUT` tells the coordinator
    /// that it is gone, and is then to be stopped.
    pub fn check_timeout(&self, now: u64) -> (gone: Option<DisconnectPlayer>)
        ensures
            timed_out(self.last_heard(), now) ==> gone == Some(
                DisconnectPlayer { address: self.handle() },
            ),
            !timed_out(self.last_heard(), now) ==> gone is None,
    {
        if now > self.ping_timestamp && now - self.ping_timestamp > CLIENT_TIMEOUT {
            Some(DisconnectPlayer { address: self.address })
        } else {
            None
        }
    }

    /// Takes a message that arrived at `now`. A ping, a pong or a text resets
    /// the keepalive clock; anything else leaves it alone. A ping is answered
    /// with its own payload.
    pub fn handle_message(&mut self, now: u64, message: Message) -> (action: Action)
        ensures
            final(self).handle() == old(self).handle(),
            final(self).last_heard() == (if message is Other {
                old(self).last_heard()
            } else {
                now
            }),
            action == action_for(old(self).handle(), message),
    {
        match message {
            Message::Ping(payload) => {
                self.ping_timestamp = now;
                Action::Pong(payload)
            },
            Message::Pong => {
                self.ping_timestamp = now;
                Action::Nothing
            },
            Message::Text(request) => {
                self.ping_timestamp = now;
                match request {
                    ClientRequests::Create(request) => Action::Connect(
                        ConnectPlayer { request, address: self.address },
                    ),
                    ClientRequests::Move(request) => Action::Move(
                        MovePlayer { request, address: self.address },
                    ),
                    ClientRequests::Invalid => Action::Invalid,
                }
            },
            Message::Other => Action::Nothing,
        }
    }

    /// The snapshot that a session pushes to its client when the coordinator
    /// hands it the dots that its player sees.
    pub fn handle_dots(message: GetDotsResult) -> (response: DotsResponse)
        ensures
            response.dots == message.dots,
    {
        DotsResponse { dots: message.dots }
    }
}

} // verus!
