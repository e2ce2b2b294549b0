use http_relay::persistence::EntryRepository;
use http_relay::repository::{Repository, StorageError};
use http_relay::server::{decimal_text, root_handler, AppState, Config, IpAddress, SocketAddress};
use http_relay::{HttpRelay, HttpRelayBuilder};
use std::path::PathBuf;
use std::time::Duration;

#[test]
fn test_root_returns_http_relay() {
    let reply = root_handler();
    assert_eq!(reply.status, 200);
    assert_eq!(&reply.body[..], b"Http Relay");
    assert_eq!(reply.content_type.unwrap().to_str().unwrap(), "text/plain; charset=utf-8");
}

#[test]
fn the_default_settings() {
    let config = Config::default();
    assert_eq!(config.bind_address, IpAddress::V4(127, 0, 0, 1));
    assert_eq!(config.http_port, 0);
    assert_eq!(config.link_timeout, Duration::from_secs(10 * 60));
    assert_eq!(config.inbox_timeout, Duration::from_secs(25));
    assert_eq!(config.inbox_cache_ttl, Duration::from_secs(5 * 60));
    assert_eq!(config.request_timeout, Duration::from_secs(10 * 60));
    assert_eq!(config.link2_timeout, Duration::from_secs(25));
    assert_eq!(config.cache_ttl, Duration::from_secs(5 * 60));
    assert_eq!(config.max_body_size, 2 * 1024);
    assert_eq!(config.max_entries, 10_000);
    assert_eq!(config.max_pending, 10_000);
    assert_eq!(config.max_cache, 10_000);
    assert_eq!(config.persist_db, None);
    assert!(config.cors_allow_all);
}

#[test]
fn the_builder_sets_what_it_is_told() {
    let config = HttpRelayBuilder::default()
        .bind_address(IpAddress::V6(1))
        .http_port(15412)
        .link_timeout(Duration::from_secs(1))
        .inbox_timeout(Duration::from_secs(2))
        .inbox_cache_ttl(Duration::from_secs(3))
        .link2_timeout(Duration::from_secs(4))
        .cache_ttl(Duration::from_secs(5))
        .max_body_size(6)
        .max_entries(7)
        .max_pending(8)
        .max_cache(9)
        .persist_db(Some(PathBuf::from("relay.db")))
        .cors_allow_all(false)
        .into_config();
    assert_eq!(config.bind_address, IpAddress::V6(1));
    assert_eq!(config.http_port, 15412);
    assert_eq!(config.link_timeout, Duration::from_secs(1));
    assert_eq!(config.inbox_timeout, Duration::from_secs(2));
    assert_eq!(config.inbox_cache_ttl, Duration::from_secs(3));
    assert_eq!(config.link2_timeout, Duration::from_secs(4));
    assert_eq!(config.cache_ttl, Duration::from_secs(5));
    assert_eq!(config.max_body_size, 6);
    assert_eq!(config.max_entries, 7);
    assert_eq!(config.max_pending, 8);
    assert_eq!(config.max_cache, 9);
    assert_eq!(config.persist_db, Some(PathBuf::from("relay.db")));
    assert!(!config.cors_allow_all);
    assert_eq!(config.request_timeout, Duration::from_secs(600));
}

#[test]
fn local_urls_name_the_port() {
    let address = SocketAddress { ip: IpAddress::V4(127, 0, 0, 1), port: 15412 };
    let relay = HttpRelay::new(address);
    assert_eq!(relay.http_address(), address);
    assert_eq!(relay.local_url().as_str(), "http://localhost:15412/");
    assert_eq!(relay.local_link_url().as_str(), "http://localhost:15412/link");
}

#[test]
fn local_urls_at_the_ends_of_the_range_and_at_the_default_port() {
    let ip = IpAddress::V4(0, 0, 0, 0);
    for port in [0, 1, 9, 10, 79, 81, 443, 8080, 65535] {
        let relay = HttpRelay::new(SocketAddress { ip, port });
        assert_eq!(relay.local_url().as_str(), format!("http://localhost:{}/", port));
        assert_eq!(relay.local_link_url().as_str(), format!("http://localhost:{}/link", port));
    }
    let relay = HttpRelay::new(SocketAddress { ip, port: 80 });
    assert_eq!(relay.local_url().as_str(), "http://localhost/");
    assert_eq!(relay.local_link_url().as_str(), "http://localhost/link");
}

#[test]
fn numbers_in_decimal() {
    for n in [0, 7, 10, 99, 100, 12345, 65535] {
        assert_eq!(decimal_text(n), n.to_string());
    }
}

#[test]
fn a_relay_starts_empty() {
    let state = AppState::new(HttpRelay::builder().max_entries(5).into_config()).unwrap();
    assert_eq!(state.config.max_entries, 5);
    assert!(state.waiting_list.is_empty());
    assert!(state.pending_list.is_empty());
    assert_eq!(state.pending_list.cache_len(), 0);
}

#[test]
fn a_relay_on_a_database_finds_what_was_there() {
    let path = PathBuf::from("file:relay_server_test?mode=memory&cache=shared");
    let mut earlier = EntryRepository::new(Some(&path), 10).unwrap();
    earlier.insert_at("id", b"kept", None, i64::MAX, 1).unwrap();
    let state = AppState::new(HttpRelay::builder().persist_db(Some(path)).into_config()).unwrap();
    assert_eq!(state.waiting_list.len(), 1);
    assert_eq!(state.waiting_list.is_acked("id"), Some(false));
}

#[test]
fn a_relay_without_its_database_does_not_start() {
    let path = PathBuf::from("/nonexistent-directory/relay.db");
    let config = HttpRelay::builder().persist_db(Some(path)).into_config();
    assert_eq!(AppState::new(config).err(), Some(StorageError::OpenFile));
}
