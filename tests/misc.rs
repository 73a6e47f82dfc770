use gooberproxy_plus::{Config, GamePacket, keep_alive_reply};

#[test]
fn keep_alive_echoes_id() {
    assert_eq!(keep_alive_reply(GamePacket::KeepAlive(42)), Some(42));
    assert_eq!(keep_alive_reply(GamePacket::KeepAlive(u64::MAX)), Some(u64::MAX));
}

#[test]
fn other_game_packets_get_no_reply() {
    assert_eq!(keep_alive_reply(GamePacket::Other), None);
}

#[test]
fn keep_alive_stream_answers_only_probes() {
    let stream = [GamePacket::Other, GamePacket::KeepAlive(42), GamePacket::Other];
    let replies: Vec<u64> = stream.iter().filter_map(|p| keep_alive_reply(*p)).collect();
    assert_eq!(replies, vec![42]);
}

#[test]
fn default_config_values() {
    let c = Config::default();
    assert_eq!(c.listen_addr.host, "0.0.0.0");
    assert_eq!(c.listen_addr.port, 25565);
    assert_eq!(c.server_addr.host, "127.0.0.1");
    assert_eq!(c.server_addr.port, 25566);
    assert_eq!(c.account, "goober@example.com");
    assert_eq!(c.player, "LiveOvergoober");
    assert_eq!(c.motd, "A Terraria server.");
}
