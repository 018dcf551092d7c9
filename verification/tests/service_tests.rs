use aleo_acc::identity::IdentityStore;
use aleo_acc::lifecycle::{scan_chunk, ServerLifecycle};
use aleo_acc::service::{get_server_url, u64_to_dec, RPC_PORT};

fn store_with_identity() -> IdentityStore {
    let mut s = vec![0u8; 32];
    s[31] = 1;
    IdentityStore::load(Some(s), None).unwrap()
}

#[test]
fn capability_url_embeds_fingerprint_and_port() {
    let store = store_with_identity();
    let url = get_server_url(&store, RPC_PORT).unwrap();
    let expected = format!("http://{}@127.0.0.1:{}", store.fingerprint(), RPC_PORT);
    assert_eq!(url, expected);
    assert!(url.starts_with("http://"));
    assert!(url.contains("@127.0.0.1:"));
}

#[test]
fn capability_url_needs_an_identity() {
    let store = IdentityStore::new();
    assert!(get_server_url(&store, RPC_PORT).is_err());
}

#[test]
fn decimal_rendering_is_exact() {
    assert_eq!(u64_to_dec(0), "0");
    assert_eq!(u64_to_dec(7), "7");
    assert_eq!(u64_to_dec(18340), "18340");
    assert_eq!(u64_to_dec(18446744073709551615), "18446744073709551615");
}

#[test]
fn listener_starts_at_most_once_and_stop_is_safe() {
    let mut life = ServerLifecycle::new();
    assert!(life.start());
    assert!(!life.start());
    assert!(life.stop());
    assert!(!life.stop());
    assert!(life.start());
}

#[test]
fn scan_keeps_bytes_before_the_first_line_feed() {
    let mut buf: Vec<u8> = Vec::new();
    let stop = scan_chunk(&mut buf, b"log \n123");
    assert!(stop);
    assert_eq!(buf, b"log ");
}

#[test]
fn scan_prefers_a_line_feed_over_an_earlier_carriage_return() {
    let mut buf: Vec<u8> = Vec::new();
    let stop = scan_chunk(&mut buf, b"a\rb\nc");
    assert!(stop);
    assert_eq!(buf, b"a\rb");
}

#[test]
fn scan_stops_at_a_carriage_return_alone() {
    let mut buf: Vec<u8> = Vec::new();
    let stop = scan_chunk(&mut buf, b"ab\rcd");
    assert!(stop);
    assert_eq!(buf, b"ab");
}

#[test]
fn scan_accumulates_chunks_without_line_breaks() {
    let mut buf: Vec<u8> = Vec::new();
    assert!(!scan_chunk(&mut buf, b"hel"));
    assert!(!scan_chunk(&mut buf, b"lo"));
    assert!(!scan_chunk(&mut buf, b""));
    assert_eq!(buf, b"hello");
    assert!(scan_chunk(&mut buf, b" world\n"));
    assert_eq!(buf, b"hello world");
}
