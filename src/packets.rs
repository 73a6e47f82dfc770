use vstd::prelude::*;

verus! {

/// The purpose declared by a handshake.
#[derive(Clone, Copy, Debug, PartialEq, Eq, Structural)]
pub enum Intention {
    Handshake,
    Game,
    Status,
    Login,
}

/// Where a connection goes after its handshake.
#[derive(Clone, Copy, Debug, PartialEq, Eq, Structural)]
pub enum Route {
    Status,
    Login,
}

/// Failures of a client connection.
#[derive(Clone, Copy, Debug, PartialEq, Eq, Structural)]
pub enum HandlerError {
    /// A packet arrived that the current phase does not expect.
    ProtocolViolation,
    /// The handshake declared an intention other than status or login.
    UnsupportedIntention(Intention),
}

/// The intention is one this relay serves.
pub open spec fn is_supported(i: Intention) -> bool {
    i == Intention::Status || i == Intention::Login
}

/// Picks the handler for a handshake's declared intention.
pub fn route_for(intention: Intention) -> (r: Result<Route, HandlerError>)
    ensures
        intention == Intention::Status ==> r == Ok::<Route, HandlerError>(Route::Status),
        intention == Intention::Login ==> r == Ok::<Route, HandlerError>(Route::Login),
        !is_supported(intention) ==> r == Err::<Route, HandlerError>(
            HandlerError::UnsupportedIntention(intention),
        ),
{
    match intention {
        Intention::Status => Ok(Route::Status),
        Intention::Login => Ok(Route::Login),
        other => Err(HandlerError::UnsupportedIntention(other)),
    }
}

/// A player's signing key as declared in a login hello.
#[derive(Clone, Debug, PartialEq, Eq)]
pub struct PublicKeyData {
    pub expires_at: u64,
    pub key: Vec<u8>,
    pub key_signature: Vec<u8>,
}

/// The first login-phase packet: who is connecting.
#[derive(Clone, Debug, PartialEq, Eq)]
pub struct Hello {
    pub username: String,
    pub public_key: Option<PublicKeyData>,
    pub profile_id: Option<u128>,
}

/// The handshake a client sends on a fresh connection.
#[derive(Clone, Debug, PartialEq, Eq)]
pub struct Handshake {
    pub protocol_version: u32,
    pub hostname: String,
    pub port: u16,
    pub intention: Intention,
}

/// The server-list answer. It carries no player sample and no favicon.
#[derive(Clone, Debug, PartialEq, Eq)]
pub struct StatusResponse {
    pub description: String,
    pub max_players: i32,
    pub online_players: i32,
    pub version_name: String,
    pub protocol: i32,
}

/// The text shown in the server list.
pub open spec fn status_description() -> Seq<char> {
    "Goobers Inc. secret test server (real)"@
}

/// The version name shown in the server list.
pub open spec fn status_version_name() -> Seq<char> {
    "popbob sex dupe 1.69.4"@
}

/// The player count shown in the server list.
pub const STATUS_MAX_PLAYERS: i32 = 420;

/// The number of players the server list claims are online.
pub const STATUS_ONLINE_PLAYERS: i32 = 69;

/// The fixed status answer, reporting `protocol` as the supported version.
pub fn status_response(protocol: i32) -> (r: StatusResponse)
    ensures
        r.description@ == status_description(),
        r.max_players == STATUS_MAX_PLAYERS,
        r.online_players == STATUS_ONLINE_PLAYERS,
        r.version_name@ == status_version_name(),
        r.protocol == protocol,
{
    proof {
        reveal_strlit("Goobers Inc. secret test server (real)");
        reveal_strlit("popbob sex dupe 1.69.4");
    }
    StatusResponse {
        description: "Goobers Inc. secret test server (real)".to_string(),
        max_players: STATUS_MAX_PLAYERS,
        online_players: STATUS_ONLINE_PLAYERS,
        version_name: "popbob sex dupe 1.69.4".to_string(),
        protocol,
    }
}

/// The reason shown to a player who is not allowed in.
pub open spec fn kick_reason_text() -> Seq<char> {
    "goober"@
}

/// The disconnect reason sent to a rejected player.
pub fn kick_reason() -> (r: String)
    ensures
        r@ == kick_reason_text(),
{
    proof {
        reveal_strlit("goober");
    }
    "goober".to_string()
}

/// The handshake that opens a login towards `host:port`.
pub fn login_handshake(protocol_version: u32, host: &String, port: u16) -> (r: Handshake)
    ensures
        r.protocol_version == protocol_version,
        r.hostname@ == host@,
        r.port == port,
        r.intention == Intention::Login,
{
    Handshake { protocol_version, hostname: host.clone(), port, intention: Intention::Login }
}

} // verus!
