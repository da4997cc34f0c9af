use gmon::server::{
    Server, ServerLatencyType, ServerQueryType, DEFAULT_LATENCY_HISTORY_SIZE,
    DEFAULT_QUERY_INTERVAL, DEFAULT_QUERY_TIMEOUT,
};
use gmon::store::ServerStore;

#[test]
fn defaults_match_runtime_defaults() {
    let store = ServerStore::default();
    let server = Server::default();

    assert_eq!(store.query_interval, server.query_interval);
    assert_eq!(store.query_timeout, server.query_timeout);
    assert_eq!(store.latency_history_size, server.latency_history_size);
}

#[test]
fn zeroed_values_fall_back_to_defaults() {
    let store = ServerStore {
        query_interval: 0,
        query_timeout: 0,
        latency_history_size: 0,
        latency_interval: Some(0),
        ..Default::default()
    };

    let server: Server = store.into();
    let defaults = Server::default();

    assert_eq!(server.query_interval, defaults.query_interval);
    assert_eq!(server.query_timeout, defaults.query_timeout);
    assert_eq!(server.latency_history_size, defaults.latency_history_size);
    assert_eq!(server.latency_interval, None);
}

#[test]
fn round_trips_settings() {
    let store = ServerStore {
        ip: "127.0.0.1".to_string(),
        port: 27015,
        port_query: Some(27016),
        query_type: ServerQueryType::Quake3,
        query_interval: 5000,
        ..Default::default()
    };

    let server: Server = store.clone().into();

    assert_eq!(server.query_type, ServerQueryType::Quake3);
    assert_eq!(server.query_port(), 27016);
    assert_eq!(server.query_interval, 5000);

    let back: ServerStore = server.into();

    assert_eq!(back.port, store.port);
    assert_eq!(back.port_query, store.port_query);
    assert_eq!(back.query_type, store.query_type);
}

#[test]
fn store_defaults_are_the_documented_values() {
    let store = ServerStore::default();

    assert_eq!(store.query_interval, 1000);
    assert_eq!(store.query_timeout, 2000);
    assert_eq!(store.latency_history_size, 100);
    assert_eq!(store.query_type, ServerQueryType::A2s);
    assert_eq!(store.latency_type, ServerLatencyType::SelfInfo);
    assert_eq!(store.port_query, None);
    assert_eq!(store.display_name, None);
    assert_eq!(DEFAULT_QUERY_INTERVAL, 1000);
    assert_eq!(DEFAULT_QUERY_TIMEOUT, 2000);
    assert_eq!(DEFAULT_LATENCY_HISTORY_SIZE, 100);
}

#[test]
fn loading_keeps_positive_settings_and_drops_zero_latency_timing() {
    let store = ServerStore {
        ip: "10.0.0.2".to_string(),
        port: 25565,
        display_name: Some("Lobby".to_string()),
        query_interval: 750,
        query_timeout: 3000,
        latency_interval: Some(400),
        latency_timeout: Some(0),
        latency_history_size: 20,
        latency_type: ServerLatencyType::Icmp,
        ..Default::default()
    };

    let server: Server = store.into();

    assert_eq!(server.ip, "10.0.0.2");
    assert_eq!(server.port, 25565);
    assert_eq!(server.display_name.as_deref(), Some("Lobby"));
    assert_eq!(server.query_interval, 750);
    assert_eq!(server.query_timeout, 3000);
    assert_eq!(server.latency_interval, Some(400));
    assert_eq!(server.latency_timeout, None);
    assert_eq!(server.latency_history_size, 20);
    assert_eq!(server.latency_type, ServerLatencyType::Icmp);
}

#[test]
fn loading_a_saved_server_gives_it_back() {
    let store = ServerStore {
        ip: "192.168.1.9".to_string(),
        port: 28960,
        port_query: Some(28961),
        display_name: Some("CoD".to_string()),
        query_type: ServerQueryType::Quake3,
        query_interval: 1500,
        query_timeout: 2500,
        latency_interval: Some(900),
        latency_timeout: Some(800),
        latency_type: ServerLatencyType::A2sInfo,
        latency_history_size: 30,
        ..Default::default()
    };

    let server: Server = store.clone().into();
    let back: ServerStore = server.into();
    let again: Server = back.clone().into();

    assert_eq!(back.ip, store.ip);
    assert_eq!(back.display_name, store.display_name);
    assert_eq!(back.query_interval, store.query_interval);
    assert_eq!(back.query_timeout, store.query_timeout);
    assert_eq!(back.latency_interval, store.latency_interval);
    assert_eq!(back.latency_timeout, store.latency_timeout);
    assert_eq!(back.latency_type, store.latency_type);
    assert_eq!(back.latency_history_size, store.latency_history_size);
    assert_eq!(again.query_port(), 28961);
    assert_eq!(again.to_addr(), "192.168.1.9:28960");
}

#[test]
fn query_port_falls_back_to_the_game_port() {
    let server = Server {
        ip: "127.0.0.1".to_string(),
        port: 27015,
        ..Default::default()
    };

    assert_eq!(server.query_port(), 27015);
    assert_eq!(server.to_addr(), "127.0.0.1:27015");
}

#[test]
fn store_address_joins_ip_and_port() {
    let store = ServerStore {
        ip: "example.org".to_string(),
        port: 19132,
        ..Default::default()
    };

    assert_eq!(store.to_addr(), "example.org:19132");
}

#[test]
fn loading_twice_changes_nothing_more() {
    let zeroed = ServerStore {
        ip: "1.2.3.4".to_string(),
        port: 7777,
        query_interval: 0,
        query_timeout: 0,
        latency_interval: Some(0),
        latency_timeout: Some(0),
        latency_history_size: 0,
        ..Default::default()
    };

    let first: Server = zeroed.into();
    let saved: ServerStore = first.clone().into();
    let second: Server = saved.into();

    assert_eq!(second.query_interval, first.query_interval);
    assert_eq!(second.query_timeout, first.query_timeout);
    assert_eq!(second.latency_interval, first.latency_interval);
    assert_eq!(second.latency_timeout, first.latency_timeout);
    assert_eq!(second.latency_history_size, first.latency_history_size);
    assert_eq!(second.query_interval, DEFAULT_QUERY_INTERVAL);
    assert_eq!(second.latency_history_size, DEFAULT_LATENCY_HISTORY_SIZE);
}

#[test]
fn records_without_an_id_take_their_address() {
    let named = ServerStore {
        id: "keep".to_string(),
        ip: "10.0.0.1".to_string(),
        port: 27015,
        ..Default::default()
    }
    .with_address_id();
    assert_eq!(named.id, "keep");

    let unnamed = ServerStore {
        ip: "10.0.0.1".to_string(),
        port: 27015,
        query_interval: 333,
        ..Default::default()
    }
    .with_address_id();
    assert_eq!(unnamed.id, "10.0.0.1:27015");
    assert_eq!(unnamed.query_interval, 333);
}
