use vstd::prelude::*;
use crate::config::Config;
use crate::packets::{HandlerError, Hello, Intention};

verus! {

/// Where a client connection stands.
#[derive(Clone, Copy, Debug, PartialEq, Eq, Structural)]
pub enum Phase {
    /// Waiting for the handshake.
    AwaitHandshake,
    /// Status query: waiting for the status request.
    AwaitStatusRequest,
    /// Status query: waiting for the ping.
    AwaitPing,
    /// Login: waiting for the hello.
    AwaitHello,
    /// Bytes are pumped both ways between client and backend.
    Relaying,
    /// Nothing more happens on this connection.
    Closed,
}

/// Which side of a relay closed first.
#[derive(Clone, Copy, Debug, PartialEq, Eq, Structural)]
pub enum DisconnectOutcome {
    ClientDisconnected,
    BackendDisconnected,
}

impl DisconnectOutcome {
    /// The seat is to be handed off: only when the client left first.
    pub fn hands_off(&self) -> (r: bool)
        ensures
            r == (*self == DisconnectOutcome::ClientDisconnected),
    {
        *self == DisconnectOutcome::ClientDisconnected
    }
}

/// What was read from the client or the backend.
#[derive(Clone, Debug, PartialEq, Eq)]
pub enum Event {
    /// The client's handshake, with its declared intention.
    Handshake(Intention),
    /// A status request packet.
    StatusRequest,
    /// A ping request carrying an opaque timestamp.
    PingRequest(u64),
    /// A login hello.
    Hello(Hello),
    /// Any other packet the client sent before the relay began.
    OtherPacket,
    /// Bytes read from the client during the relay.
    ClientData(Vec<u8>),
    /// Bytes read from the backend during the relay.
    BackendData(Vec<u8>),
    /// The client's stream ended or failed.
    ClientEof,
    /// The backend's stream ended or failed.
    BackendEof,
}

/// What the caller must do next.
#[derive(Clone, Debug, PartialEq, Eq)]
pub enum Action {
    /// Nothing to send.
    Idle,
    /// Send the fixed status answer.
    SendStatus,
    /// Answer a ping with this timestamp.
    SendPong(u64),
    /// Send a login disconnect with the kick reason, then close.
    Kick,
    /// Open a backend connection with a login handshake and forward this hello.
    Solicit(Hello),
    /// Write these bytes to the backend.
    ToBackend(Vec<u8>),
    /// Write these bytes to the client.
    ToClient(Vec<u8>),
    /// The relay is over; hand off the seat when the client was the one to leave.
    RelayEnded(DisconnectOutcome),
    /// Close the connection because of this failure.
    Fail(HandlerError),
}

/// One transition: the phase after `e` and what to do about it.
pub open spec fn step_spec(player: Seq<char>, p: Phase, e: Event) -> (Phase, Action) {
    match p {
        Phase::AwaitHandshake => match e {
            Event::Handshake(i) => if i == Intention::Status {
                (Phase::AwaitStatusRequest, Action::Idle)
            } else if i == Intention::Login {
                (Phase::AwaitHello, Action::Idle)
            } else {
                (Phase::Closed, Action::Fail(HandlerError::UnsupportedIntention(i)))
            },
            _ => (Phase::Closed, Action::Fail(HandlerError::ProtocolViolation)),
        },
        Phase::AwaitStatusRequest => match e {
            Event::StatusRequest => (Phase::AwaitPing, Action::SendStatus),
            _ => (Phase::Closed, Action::Fail(HandlerError::ProtocolViolation)),
        },
        Phase::AwaitPing => match e {
            Event::PingRequest(t) => (Phase::Closed, Action::SendPong(t)),
            _ => (Phase::Closed, Action::Fail(HandlerError::ProtocolViolation)),
        },
        Phase::AwaitHello => match e {
            Event::Hello(h) => if h.username@ == player {
                (Phase::Relaying, Action::Solicit(h))
            } else {
                (Phase::Closed, Action::Kick)
            },
            _ => (Phase::Closed, Action::Fail(HandlerError::ProtocolViolation)),
        },
        Phase::Relaying => match e {
            Event::ClientData(v) => (Phase::Relaying, Action::ToBackend(v)),
            Event::BackendData(v) => (Phase::Relaying, Action::ToClient(v)),
            Event::ClientEof => (
                Phase::Closed,
                Action::RelayEnded(DisconnectOutcome::ClientDisconnected),
            ),
            Event::BackendEof => (
                Phase::Closed,
                Action::RelayEnded(DisconnectOutcome::BackendDisconnected),
            ),
            _ => (Phase::Relaying, Action::Idle),
        },
        Phase::Closed => (Phase::Closed, Action::Idle),
    }
}

/// The phase reached and the actions taken over a sequence of events.
pub open spec fn run(player: Seq<char>, p: Phase, events: Seq<Event>) -> (Phase, Seq<Action>)
    decreases events.len(),
{
    if events.len() == 0 {
        (p, Seq::empty())
    } else {
        let (p1, a) = step_spec(player, p, events[0]);
        let (pn, rest) = run(player, p1, events.drop_first());
        (pn, seq![a] + rest)
    }
}

/// State of one client connection.
pub struct ConnectionHandler {
    pub phase: Phase,
}

impl ConnectionHandler {
    /// A handler for a freshly accepted connection.
    pub fn new() -> (r: ConnectionHandler)
        ensures
            r.phase == Phase::AwaitHandshake,
    {
        ConnectionHandler { phase: Phase::AwaitHandshake }
    }

    /// True once nothing more happens on this connection.
    pub fn is_closed(&self) -> (r: bool)
        ensures
            r == (self.phase == Phase::Closed),
    {
        self.phase == Phase::Closed
    }

    /// Takes in what was read and says what to do.
    pub fn step(&mut self, config: &Config, event: Event) -> (r: Action)
        ensures
            (final(self).phase, r) == step_spec(config.player@, old(self).phase, event),
    {
        match self.phase {
            Phase::AwaitHandshake => match event {
                Event::Handshake(i) => match crate::packets::route_for(i) {
                    Ok(crate::packets::Route::Status) => {
                        self.phase = Phase::AwaitStatusRequest;
                        Action::Idle
                    },
                    Ok(crate::packets::Route::Login) => {
                        self.phase = Phase::AwaitHello;
                        Action::Idle
                    },
                    Err(e) => {
                        self.phase = Phase::Closed;
                        Action::Fail(e)
                    },
                },
                _ => {
                    self.phase = Phase::Closed;
                    Action::Fail(HandlerError::ProtocolViolation)
                },
            },
            Phase::AwaitStatusRequest => match event {
                Event::StatusRequest => {
                    self.phase = Phase::AwaitPing;
                    Action::SendStatus
                },
                _ => {
                    self.phase = Phase::Closed;
                    Action::Fail(HandlerError::ProtocolViolation)
                },
            },
            Phase::AwaitPing => match event {
                Event::PingRequest(t) => {
                    self.phase = Phase::Closed;
                    Action::SendPong(t)
                },
                _ => {
                    self.phase = Phase::Closed;
                    Action::Fail(HandlerError::ProtocolViolation)
                },
            },
            Phase::AwaitHello => match event {
                Event::Hello(h) => {
                    if h.username == config.player {
                        self.phase = Phase::Relaying;
                        Action::Solicit(h)
                    } else {
                        self.phase = Phase::Closed;
                        Action::Kick
                    }
                },
                _ => {
                    self.phase = Phase::Closed;
                    Action::Fail(HandlerError::ProtocolViolation)
                },
            },
            Phase::Relaying => match event {
                Event::ClientData(v) => Action::ToBackend(v),
                Event::BackendData(v) => Action::ToClient(v),
                Event::ClientEof => {
                    self.phase = Phase::Closed;
                    Action::RelayEnded(DisconnectOutcome::ClientDisconnected)
                },
                Event::BackendEof => {
                    self.phase = Phase::Closed;
                    Action::RelayEnded(DisconnectOutcome::BackendDisconnected)
                },
                _ => Action::Idle,
            },
            Phase::Closed => Action::Idle,
        }
    }
}

} // verus!
