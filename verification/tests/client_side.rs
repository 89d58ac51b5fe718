use udp_over_https::base64::base_64_encode_bytes_to_string;
use udp_over_https::client::{
    accept_server_reply, aggregation_wait_ms, check_status, finish_request, ClientRelay,
    ExchangeError, PollOutcome, RequestAssembly, TunnelDelivery,
};
use udp_over_https::interfaces::HttpData;

fn data(secret: &str, packets: Vec<&str>) -> HttpData {
    HttpData {
        version: 1,
        queue_messages: 0,
        wait_ms: None,
        send_back_mess: None,
        secret: secret.to_string(),
        data: packets.into_iter().map(|s| s.to_string()).collect(),
    }
}

type Addr = ([u8; 4], u16);

#[test]
fn wait_is_what_is_left_of_keep_alive() {
    assert_eq!(aggregation_wait_ms(100, 0), 100);
    assert_eq!(aggregation_wait_ms(100, 30), 70);
    assert_eq!(aggregation_wait_ms(100, 100), 0);
    assert_eq!(aggregation_wait_ms(100, 250), 0);
    assert_eq!(aggregation_wait_ms(u64::MAX, 1), u64::MAX - 1);
    assert_eq!(aggregation_wait_ms(5, u128::MAX), 0);
}

#[test]
fn assembly_collects_packets_in_order_up_to_limit() {
    let mut a = RequestAssembly::new(2);
    assert!(!a.is_complete());
    a.record(PollOutcome::Packet("AQ==".to_string()));
    assert!(!a.is_complete());
    a.record(PollOutcome::ChannelError);
    assert!(!a.is_complete());
    a.record(PollOutcome::Packet("Ag==".to_string()));
    assert!(a.is_complete());
    let r = a.into_request("k".to_string(), 5, 7);
    assert_eq!(r.data, vec!["AQ==".to_string(), "Ag==".to_string()]);
    assert_eq!(r.version, 1);
    assert_eq!(r.queue_messages, 5);
    assert_eq!(r.wait_ms, Some(7));
    assert_eq!(r.send_back_mess, Some(2));
    assert_eq!(r.secret, "k");
}

#[test]
fn timeout_ends_the_wait() {
    let mut a = RequestAssembly::new(10);
    a.record(PollOutcome::Packet("AQ==".to_string()));
    a.record(PollOutcome::TimedOut);
    assert!(a.is_complete());
    let r = a.into_request("k".to_string(), 0, 1);
    assert_eq!(r.send_back_mess, Some(10));
    assert_eq!(r.wait_ms, Some(1));
    assert_eq!(r.data.len(), 1);
}

#[test]
fn shutdown_ends_the_wait() {
    let mut a = RequestAssembly::new(10);
    a.record(PollOutcome::Shutdown);
    assert!(a.is_complete());
}

#[test]
fn zero_limit_sends_an_empty_keep_alive() {
    let a = RequestAssembly::new(0);
    assert!(a.is_complete());
    let r = a.into_request("k".to_string(), 70000, 1);
    assert_eq!(r.send_back_mess, Some(0));
    assert!(r.data.is_empty());
    assert_eq!(r.queue_messages, u16::MAX);
}

#[test]
fn finish_request_reports_queue() {
    let (tx, rx) = async_channel::unbounded::<String>();
    tx.try_send("AQ==".to_string()).unwrap();
    tx.try_send("Ag==".to_string()).unwrap();
    let mut a = RequestAssembly::new(1);
    a.record(PollOutcome::Packet(rx.try_recv().unwrap()));
    let r = finish_request(a, "k".to_string(), 3, &rx);
    assert_eq!(r.wait_ms, Some(3));
    assert_eq!(r.send_back_mess, Some(1));
    assert_eq!(r.data, vec!["AQ==".to_string()]);
    assert_eq!(r.queue_messages, 1);
}

#[test]
fn status_success_range() {
    assert_eq!(check_status(200), Ok(()));
    assert_eq!(check_status(299), Ok(()));
    assert_eq!(check_status(199), Err(ExchangeError::BadStatus(199)));
    assert_eq!(check_status(300), Err(ExchangeError::BadStatus(300)));
    assert_eq!(check_status(401), Err(ExchangeError::BadStatus(401)));
}

#[test]
fn reply_with_same_secret_is_accepted() {
    let sent = data("k", vec![]);
    let reply = data("k", vec!["AQ==", "Ag=="]);
    assert_eq!(
        accept_server_reply(&sent, reply),
        Ok(vec!["AQ==".to_string(), "Ag==".to_string()])
    );
}

#[test]
fn reply_with_other_secret_is_discarded() {
    let sent = data("k", vec![]);
    let reply = data("K", vec!["AQ=="]);
    assert_eq!(accept_server_reply(&sent, reply), Err(ExchangeError::InvalidSecret));
}

#[test]
fn relay_without_peer_drops_packets() {
    let unset: Addr = ([127, 0, 0, 1], 0);
    let relay = ClientRelay::new(unset);
    assert!(matches!(relay.on_tunnel_packet("AQ=="), TunnelDelivery::NoTarget));
    assert!(matches!(relay.on_tunnel_packet("not base64"), TunnelDelivery::NoTarget));
}

#[test]
fn relay_answers_last_peer() {
    let unset: Addr = ([127, 0, 0, 1], 0);
    let a: Addr = ([127, 0, 0, 1], 4000);
    let b: Addr = ([10, 0, 0, 2], 5000);
    let mut relay = ClientRelay::new(unset);
    let text = relay.on_datagram(a, a.1, b"ping");
    assert_eq!(text, base_64_encode_bytes_to_string(b"ping"));
    match relay.on_tunnel_packet("cG9uZw==") {
        TunnelDelivery::Emit(to, bytes) => {
            assert_eq!(to, a);
            assert_eq!(bytes, b"pong".to_vec());
        }
        other => panic!("unexpected {:?}", other),
    }
    relay.on_datagram(b, b.1, b"");
    match relay.on_tunnel_packet("cG9uZw==") {
        TunnelDelivery::Emit(to, _) => assert_eq!(to, b),
        other => panic!("unexpected {:?}", other),
    }
}

#[test]
fn relay_reports_malformed_packets() {
    let unset: Addr = ([127, 0, 0, 1], 0);
    let a: Addr = ([127, 0, 0, 1], 4000);
    let mut relay = ClientRelay::new(unset);
    relay.on_datagram(a, a.1, b"x");
    assert!(matches!(relay.on_tunnel_packet("Zg=a"), TunnelDelivery::Malformed));
}

#[test]
fn relay_from_port_zero_has_no_peer() {
    let unset: Addr = ([127, 0, 0, 1], 0);
    let mut relay = ClientRelay::new(unset);
    relay.on_datagram(unset, 0, b"x");
    assert!(matches!(relay.on_tunnel_packet("AQ=="), TunnelDelivery::NoTarget));
}

#[test]
fn reply_limit_is_capped_at_u16() {
    let a = RequestAssembly::new(70000);
    let r = a.into_request("k".to_string(), 0, 0);
    assert_eq!(r.send_back_mess, Some(u16::MAX));
    assert_eq!(r.wait_ms, Some(0));
}
