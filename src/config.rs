use vstd::prelude::*;

verus! {

/// A network address: the textual IP and a port.
#[derive(Clone, Debug, PartialEq, Eq)]
pub struct Endpoint {
    pub host: String,
    pub port: u16,
}

/// Settings shared read-only by every connection.
#[derive(Clone, Debug, PartialEq, Eq)]
pub struct Config {
    /// Where clients connect.
    pub listen_addr: Endpoint,
    /// The real server.
    pub server_addr: Endpoint,
    /// The stand-in account that holds the seat after the player leaves.
    pub account: String,
    /// The only player name that is let through.
    pub player: String,
    /// Message of the day.
    pub motd: String,
}

impl Default for Config {
    fn default() -> (r: Config)
        ensures
            r.listen_addr.host@ == "0.0.0.0"@,
            r.listen_addr.port == 25565,
            r.server_addr.host@ == "127.0.0.1"@,
            r.server_addr.port == 25566,
            r.account@ == "goober@example.com"@,
            r.player@ == "LiveOvergoober"@,
            r.motd@ == "A Terraria server."@,
    {
        Config {
            listen_addr: Endpoint { host: "0.0.0.0".to_string(), port: 25565 },
            server_addr: Endpoint { host: "127.0.0.1".to_string(), port: 25566 },
            account: "goober@example.com".to_string(),
            player: "LiveOvergoober".to_string(),
            motd: "A Terraria server.".to_string(),
        }
    }
}

} // verus!
