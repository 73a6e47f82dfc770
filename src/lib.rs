//! Decision logic of a single-seat relay for a stateful game protocol.
//!
//! Every network operation is performed by the caller; this library holds the
//! state machines that decide which packet to send, where bytes go, and when a
//! session is handed off to a stand-in identity.
pub mod config;
pub mod handler;
pub mod join;
pub mod keep_alive;
pub mod packets;
pub mod traces;

pub use config::{Config, Endpoint};
pub use handler::{Action, ConnectionHandler, DisconnectOutcome, Event, Phase};
pub use join::{
    AccountInfo, JoinAction, JoinPhase, JoinServerError, Joiner, LoginPacketKind, LoginReply,
    Profile, SessionKeys,
};
pub use keep_alive::{GamePacket, keep_alive_reply};
pub use packets::{
    Handshake, HandlerError, Hello, Intention, PublicKeyData, Route, StatusResponse, kick_reason,
    login_handshake, route_for, status_response, STATUS_MAX_PLAYERS, STATUS_ONLINE_PLAYERS,
};
