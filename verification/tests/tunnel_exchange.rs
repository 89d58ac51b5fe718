use udp_over_https::base64::try_base_64_decode_string_to_bytes;
use udp_over_https::client::{
    accept_server_reply, check_status, ClientRelay, ExchangeError, PollOutcome, RequestAssembly,
    TunnelDelivery,
};
use udp_over_https::server::{check_client_request, collect_reply, Rejection};

type Addr = ([u8; 4], u16);

#[test]
fn datagram_crosses_the_tunnel_both_ways() {
    let secret = "shared".to_string();
    let unset: Addr = ([127, 0, 0, 1], 0);
    let peer: Addr = ([127, 0, 0, 1], 51820);
    let mut relay = ClientRelay::new(unset);
    let payload: Vec<u8> = (0..=255u8).collect();

    // client side: datagram in, request out
    let text = relay.on_datagram(peer, peer.1, &payload);
    let mut assembly = RequestAssembly::new(1);
    assembly.record(PollOutcome::Packet(text));
    let request = assembly.into_request(secret.clone(), 0, 1);
    assert_eq!(request.send_back_mess, Some(1));
    assert_eq!(request.wait_ms, Some(1));

    // server side: request checked, datagrams decoded for the relay target
    assert_eq!(check_client_request(&request, &secret), Ok(()));
    for packet in &request.data {
        assert_eq!(try_base_64_decode_string_to_bytes(packet), Some(payload.clone()));
    }

    // server side: answer with what its UDP side queued
    let (tx, rx) = async_channel::unbounded::<String>();
    tx.try_send("cmVwbHk=".to_string()).unwrap();
    tx.try_send("bW9yZQ==".to_string()).unwrap();
    let (reply, drained) = collect_reply(&rx, request.send_back_mess, &secret);
    assert!(!drained);
    // the reply honours the client's limit of one datagram per exchange
    assert_eq!(reply.data.len(), 1);
    assert_eq!(reply.queue_messages, 1);

    // client side: reply accepted, datagram emitted to the peer
    assert_eq!(check_status(200), Ok(()));
    let packets = accept_server_reply(&request, reply).unwrap();
    assert_eq!(packets.len(), 1);
    match relay.on_tunnel_packet(&packets[0]) {
        TunnelDelivery::Emit(to, bytes) => {
            assert_eq!(to, peer);
            assert_eq!(bytes, b"reply".to_vec());
        }
        other => panic!("unexpected {:?}", other),
    }
}

#[test]
fn ends_with_different_secrets_refuse_each_other() {
    let client_secret = "a".to_string();
    let server_secret = "b".to_string();
    let request = RequestAssembly::new(0).into_request(client_secret.clone(), 0, 1);
    assert_eq!(check_client_request(&request, &server_secret), Err(Rejection::InvalidSecret));
    let (_tx, rx) = async_channel::unbounded::<String>();
    let (reply, _) = collect_reply(&rx, None, &server_secret);
    assert_eq!(accept_server_reply(&request, reply), Err(ExchangeError::InvalidSecret));
}
