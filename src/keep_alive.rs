use vstd::prelude::*;

verus! {

/// A game-phase packet from the backend, as far as a seat holder cares.
#[derive(Clone, Copy, Debug, PartialEq, Eq, Structural)]
pub enum GamePacket {
    /// A liveness probe with an opaque id.
    KeepAlive(u64),
    /// Anything else.
    Other,
}

/// The keep-alive id to send back for `packet`, if any: a probe is answered
/// with its own id, every other packet with nothing.
pub fn keep_alive_reply(packet: GamePacket) -> (r: Option<u64>)
    ensures
        r == (match packet {
            GamePacket::KeepAlive(id) => Some(id),
            GamePacket::Other => None::<u64>,
        }),
{
    match packet {
        GamePacket::KeepAlive(id) => Some(id),
        GamePacket::Other => None,
    }
}

} // verus!
