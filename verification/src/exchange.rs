//! What holds of an exchange between a client and a server.

use vstd::prelude::*;
use crate::client::{client_request, reply_verdict, ExchangeError};
use crate::interfaces::saturated_count;
use crate::server::{request_verdict, send_back_limit, server_reply, Rejection};

verus! {

/// A client and a server that share the pre-shared secret accept each
/// other's messages: the server accepts every request the client builds, and
/// the client takes every datagram of the server's reply, unchanged and in
/// order.
pub proof fn lemma_shared_secret_agreement(
    secret: Seq<char>,
    request_data: Seq<Seq<char>>,
    client_queued: int,
    max_server_delay_ms: u16,
    max_messages: int,
    reply_data: Seq<Seq<char>>,
    server_queued: int,
)
    ensures
        request_verdict(
            client_request(secret, request_data, client_queued, max_server_delay_ms, max_messages),
            secret,
        ) == Ok::<
            (),
            Rejection,
        >(()),
        reply_verdict(secret, server_reply(secret, reply_data, server_queued)) == Ok::<
            Seq<Seq<char>>,
            ExchangeError,
        >(reply_data),
{
}

/// Ends with different secrets refuse each other: the server answers the
/// client's request with Unauthorized, and the client discards the server's
/// reply.
pub proof fn lemma_foreign_secret_refused(
    client_secret: Seq<char>,
    server_secret: Seq<char>,
    request_data: Seq<Seq<char>>,
    client_queued: int,
    max_server_delay_ms: u16,
    max_messages: int,
    reply_data: Seq<Seq<char>>,
    server_queued: int,
)
    requires
        client_secret != server_secret,
    ensures
        request_verdict(
            client_request(client_secret, request_data, client_queued, max_server_delay_ms, max_messages),
            server_secret,
        )
            == Err::<(), Rejection>(Rejection::InvalidSecret),
        reply_verdict(client_secret, server_reply(server_secret, reply_data, server_queued))
            == Err::<Seq<Seq<char>>, ExchangeError>(ExchangeError::InvalidSecret),
{
}

/// A server answering a client request takes back no more datagrams than
/// the client's `max_number_of_aggregate_messages`: the limit the request
/// carries is that option, capped at `u16::MAX`.
pub proof fn lemma_reply_within_client_limit(
    secret: Seq<char>,
    request_data: Seq<Seq<char>>,
    client_queued: int,
    max_server_delay_ms: u16,
    max_messages: int,
)
    requires
        0 <= max_messages,
    ensures
        ({
            let request = client_request(
                secret,
                request_data,
                client_queued,
                max_server_delay_ms,
                max_messages,
            );
            &&& send_back_limit(request.send_back_mess) == saturated_count(max_messages)
            &&& send_back_limit(request.send_back_mess) <= max_messages
            &&& request.wait_ms == Some(max_server_delay_ms)
        }),
{
}

} // verus!
