//! The client end: how it assembles a request from the datagrams it
//! received, how it judges the server's reply, and where it sends the
//! datagrams that come back.

use vstd::prelude::*;
use crate::base64::{
    base64_decode, base64_encode, base64_encoded_len, base_64_encode_bytes_to_string,
    is_base64_encoding_of, try_base_64_decode_string_to_bytes,
};
use crate::channel::channel_len;
use crate::interfaces::{
    saturated_count, saturating_count, texts, HttpData, HttpDataView, CURRENT_PROTOCOL_VERSION,
};

verus! {

/// How long the client still waits for another datagram before it sends the
/// request: what is left of the keep-alive interval, and nothing once it has
/// passed.
pub open spec fn remaining_wait(keep_alive_ms: u64, elapsed_ms: u128) -> u64 {
    if elapsed_ms <= keep_alive_ms as u128 {
        (keep_alive_ms - elapsed_ms) as u64
    } else {
        0
    }
}

/// Computes `remaining_wait`.
pub fn aggregation_wait_ms(keep_alive_ms: u64, elapsed_ms: u128) -> (res: u64)
    ensures
        res == remaining_wait(keep_alive_ms, elapsed_ms),
        res <= keep_alive_ms,
        elapsed_ms <= keep_alive_ms as u128 ==> res as int + elapsed_ms as int == keep_alive_ms as int,
        elapsed_ms >= keep_alive_ms as u128 ==> res == 0,
{
    let keep_alive = keep_alive_ms as u128;
    if elapsed_ms <= keep_alive {
        (keep_alive - elapsed_ms) as u64
    } else {
        0
    }
}

/// What one wait for a datagram of the local UDP side ended with.
#[derive(Debug)]
pub enum PollOutcome {
    /// A datagram (as base64 text).
    Packet(String),
    /// The channel reported an error; the client keeps waiting.
    ChannelError,
    /// The wait reached its timeout.
    TimedOut,
    /// The client is shutting down.
    Shutdown,
}

/// The request the client sends: its version and secret, the datagrams it
/// aggregated, how many are still queued, how long the server may wait
/// before it answers with an empty aggregation (`max_server_delay_ms`), and
/// how many datagrams the reply may carry back (`max_messages`, the same
/// limit as for the request, as far as a `u16` holds it).
pub open spec fn client_request(
    secret: Seq<char>,
    data: Seq<Seq<char>>,
    queued: int,
    max_server_delay_ms: u16,
    max_messages: int,
) -> HttpDataView {
    HttpDataView {
        version: CURRENT_PROTOCOL_VERSION,
        queue_messages: saturated_count(queued),
        wait_ms: Some(max_server_delay_ms),
        send_back_mess: Some(saturated_count(max_messages)),
        secret: secret,
        data: data,
    }
}

/// A request being filled with datagrams.
pub struct RequestAssembly {
    max_messages: usize,
    data: Vec<String>,
    closed: bool,
}

/// The content of a `RequestAssembly`: how many datagrams it may carry, those
/// it carries, and whether the wait for more has ended.
pub struct RequestAssemblyView {
    pub max_messages: usize,
    pub data: Seq<Seq<char>>,
    pub closed: bool,
}

impl View for RequestAssembly {
    type V = RequestAssemblyView;

    closed spec fn view(&self) -> RequestAssemblyView {
        RequestAssemblyView {
            max_messages: self.max_messages,
            data: texts(self.data@),
            closed: self.closed,
        }
    }
}

impl RequestAssembly {
    /// The request never carries more datagrams than it may.
    pub open spec fn wf(&self) -> bool {
        self@.data.len() <= self@.max_messages
    }

    /// Starts a request that carries at most `max_messages` datagrams.
    pub fn new(max_messages: usize) -> (res: Self)
        ensures
            res.wf(),
            res@.max_messages == max_messages,
            res@.data == Seq::<Seq<char>>::empty(),
            !res@.closed,
    {
        let res = RequestAssembly { max_messages, data: Vec::new(), closed: false };
        assert(res@.data =~= Seq::<Seq<char>>::empty());
        res
    }

    /// Whether the request is ready to go: the wait has ended, or it carries
    /// as many datagrams as it may.
    pub fn is_complete(&self) -> (res: bool)
        ensures
            res == (self@.closed || self@.data.len() >= self@.max_messages),
    {
        self.closed || self.data.len() >= self.max_messages
    }

    /// Takes what a wait ended with: a datagram is added, a channel error
    /// changes nothing, a timeout or a shutdown ends the wait.
    pub fn record(&mut self, outcome: PollOutcome)
        requires
            !old(self)@.closed,
            old(self)@.data.len() < old(self)@.max_messages,
        ensures
            final(self).wf(),
            final(self)@.max_messages == old(self)@.max_messages,
            (match outcome {
                PollOutcome::Packet(p) => {
                    &&& final(self)@.data == old(self)@.data.push(p@)
                    &&& !final(self)@.closed
                },
                PollOutcome::ChannelError => {
                    &&& final(self)@.data == old(self)@.data
                    &&& !final(self)@.closed
                },
                _ => {
                    &&& final(self)@.data == old(self)@.data
                    &&& final(self)@.closed
                },
            }),
    {
        match outcome {
            PollOutcome::Packet(p) => {
                let ghost old_data = self.data@;
                self.data.push(p);
                assert(texts(self.data@) =~= texts(old_data).push(self.data@.last()@));
            },
            PollOutcome::ChannelError => {},
            _ => {
                self.closed = true;
            },
        }
    }

    /// The request, given the client's secret, how many datagrams are still
    /// queued, and how long the server may wait before it answers with an
    /// empty aggregation.
    pub fn into_request(self, secret: String, queued: usize, max_server_delay_ms: u16) -> (res: HttpData)
        requires
            self.wf(),
        ensures
            res@ == client_request(
                secret@,
                self@.data,
                queued as int,
                max_server_delay_ms,
                self@.max_messages as int,
            ),
            res@.data.len() <= self@.max_messages,
            queued <= u16::MAX ==> res@.queue_messages as int == queued as int,
            queued > u16::MAX ==> res@.queue_messages == u16::MAX,
    {
        HttpData {
            version: CURRENT_PROTOCOL_VERSION,
            queue_messages: saturating_count(queued),
            wait_ms: Some(max_server_delay_ms),
            send_back_mess: Some(saturating_count(self.max_messages)),
            secret,
            data: self.data,
        }
    }
}

/// The request for an assembly, with the number of datagrams that wait in the
/// client's queue at this moment.
pub fn finish_request(
    assembly: RequestAssembly,
    secret: String,
    max_server_delay_ms: u16,
    receiver: &async_channel::Receiver<String>,
) -> (res: HttpData)
    requires
        assembly.wf(),
    ensures
        res@.version == CURRENT_PROTOCOL_VERSION,
        res@.wait_ms == Some(max_server_delay_ms),
        res@.send_back_mess == Some(saturated_count(assembly@.max_messages as int)),
        res@.secret == secret@,
        res@.data == assembly@.data,
        res@.data.len() <= assembly@.max_messages,
{
    let queued = channel_len(receiver);
    assembly.into_request(secret, queued, max_server_delay_ms)
}

/// Why the client discards a reply.
#[derive(Debug, Clone, Copy, PartialEq, Eq, Structural)]
pub enum ExchangeError {
    /// The server answered with a status code outside 200..=299.
    BadStatus(u16),
    /// The reply does not carry the secret the request carried.
    InvalidSecret,
}

/// Whether an HTTP status code reports success.
pub open spec fn is_success_status(code: u16) -> bool {
    200 <= code <= 299
}

/// Accepts the status code of a reply where it reports success.
pub fn check_status(code: u16) -> (res: Result<(), ExchangeError>)
    ensures
        res == (if is_success_status(code) {
            Ok(())
        } else {
            Err(ExchangeError::BadStatus(code))
        }),
        res is Ok <==> (200 <= code && code <= 299),
        res is Err ==> res == Err::<(), ExchangeError>(ExchangeError::BadStatus(code)),
{
    if 200 <= code && code <= 299 {
        Ok(())
    } else {
        Err(ExchangeError::BadStatus(code))
    }
}

/// The client's verdict on a reply to a request that carried `sent_secret`:
/// the datagrams it carries, where it carries the same secret.
pub open spec fn reply_verdict(sent_secret: Seq<char>, reply: HttpDataView) -> Result<
    Seq<Seq<char>>,
    ExchangeError,
> {
    if reply.secret == sent_secret {
        Ok(reply.data)
    } else {
        Err(ExchangeError::InvalidSecret)
    }
}

/// Judges a reply to the request `sent`: gives the datagrams to forward, or
/// why the reply is discarded.
pub fn accept_server_reply(sent: &HttpData, reply: HttpData) -> (res: Result<Vec<String>, ExchangeError>)
    ensures
        (match res {
            Ok(v) => reply_verdict(sent@.secret, reply@) == Ok::<Seq<Seq<char>>, ExchangeError>(texts(v@)),
            Err(e) => reply_verdict(sent@.secret, reply@) == Err::<Seq<Seq<char>>, ExchangeError>(e),
        }),
        res matches Ok(v) ==> v@ == reply.data@,
{
    if reply.secret != sent.secret {
        Err(ExchangeError::InvalidSecret)
    } else {
        Ok(reply.data)
    }
}

/// What becomes of a datagram that came back through the tunnel.
#[derive(Debug)]
pub enum TunnelDelivery<A> {
    /// Send these bytes to this address.
    Emit(A, Vec<u8>),
    /// No local peer has sent anything yet, so there is nowhere to send it.
    NoTarget,
    /// The text is not base64 that the engine accepts.
    Malformed,
}

/// The client's local UDP side: it answers the peer that sent the last
/// datagram.
pub struct ClientRelay<A> {
    target: A,
    target_port: u16,
}

/// The content of a `ClientRelay`: the address of the last peer, and its port
/// (0 while there is none).
pub struct ClientRelayView<A> {
    pub target: A,
    pub target_port: u16,
}

impl<A> View for ClientRelay<A> {
    type V = ClientRelayView<A>;

    closed spec fn view(&self) -> ClientRelayView<A> {
        ClientRelayView { target: self.target, target_port: self.target_port }
    }
}

impl<A: Copy> ClientRelay<A> {
    /// A relay that has heard from nobody; `unset` stands for the address,
    /// with port 0, and is never sent to.
    pub fn new(unset: A) -> (res: Self)
        ensures
            res@.target == unset,
            res@.target_port == 0,
    {
        ClientRelay { target: unset, target_port: 0 }
    }

    /// A datagram from `src` (whose port is `src_port`): it becomes the peer
    /// to answer, and its payload goes into the tunnel as base64 text.
    pub fn on_datagram(&mut self, src: A, src_port: u16, payload: &[u8]) -> (res: String)
        requires
            base64_encoded_len(payload@.len() as int) <= usize::MAX,
        ensures
            final(self)@.target == src,
            final(self)@.target_port == src_port,
            res@ == base64_encode(payload@),
    {
        self.target = src;
        self.target_port = src_port;
        base_64_encode_bytes_to_string(payload)
    }

    /// A datagram that came back through the tunnel (as base64 text): it goes
    /// to the last peer, once there is one.
    pub fn on_tunnel_packet(&self, packet: &str) -> (res: TunnelDelivery<A>)
        ensures
            self@.target_port == 0 ==> res is NoTarget,
            self@.target_port != 0 ==> (res is Malformed <==> base64_decode(packet@) is None),
            res matches TunnelDelivery::Emit(to, bytes) ==> {
                &&& self@.target_port != 0
                &&& to == self@.target
                &&& base64_decode(packet@) == Some(bytes@)
            },
            forall|b: Seq<u8>|
                self@.target_port != 0 && #[trigger] is_base64_encoding_of(packet@, b) ==> res is Emit
                    && res->0 == self@.target && res->1@ == b,
    {
        if self.target_port == 0 {
            TunnelDelivery::NoTarget
        } else {
            match try_base_64_decode_string_to_bytes(packet) {
                Some(bytes) => TunnelDelivery::Emit(self.target, bytes),
                None => TunnelDelivery::Malformed,
            }
        }
    }
}

/// The client waits for what is left of the keep-alive interval: the wait
/// and the time already passed add up to the interval, the wait is 0 exactly
/// when the interval has passed, and waiting longer already means waiting
/// less from now on.
pub proof fn lemma_wait_completes_interval(keep_alive_ms: u64, elapsed_ms: u128, later_ms: u128)
    requires
        elapsed_ms <= later_ms,
    ensures
        elapsed_ms <= keep_alive_ms as u128 ==> remaining_wait(keep_alive_ms, elapsed_ms) as int
            + elapsed_ms as int == keep_alive_ms as int,
        remaining_wait(keep_alive_ms, elapsed_ms) == 0 <==> elapsed_ms >= keep_alive_ms as u128,
        remaining_wait(keep_alive_ms, later_ms) <= remaining_wait(keep_alive_ms, elapsed_ms),
        remaining_wait(keep_alive_ms, elapsed_ms) <= keep_alive_ms,
{
}

/// Only the 2xx codes report success: every informational, redirection,
/// client error and server error code is refused with that code.
pub proof fn lemma_success_is_2xx(code: u16)
    ensures
        is_success_status(code) <==> 200 <= code < 300,
        code < 200 ==> !is_success_status(code),
        300 <= code < 400 ==> !is_success_status(code),
        400 <= code < 500 ==> !is_success_status(code),
        500 <= code ==> !is_success_status(code),
{
}

/// A request reports the number of datagrams still queued on the client
/// whenever it fits in a `u16`, and `u16::MAX` only when it does not;
/// different counts that fit are reported differently.
pub proof fn lemma_request_queue_count(
    secret: Seq<char>,
    data: Seq<Seq<char>>,
    queued: int,
    other: int,
    max_server_delay_ms: u16,
    max_messages: int,
)
    requires
        0 <= queued,
        0 <= other,
    ensures
        queued <= u16::MAX ==> client_request(
            secret,
            data,
            queued,
            max_server_delay_ms,
            max_messages,
        ).queue_messages as int == queued,
        queued > u16::MAX ==> client_request(
            secret,
            data,
            queued,
            max_server_delay_ms,
            max_messages,
        ).queue_messages == u16::MAX,
        queued != other && queued <= u16::MAX && other <= u16::MAX ==> client_request(
            secret,
            data,
            queued,
            max_server_delay_ms,
            max_messages,
        ).queue_messages != client_request(
            secret,
            data,
            other,
            max_server_delay_ms,
            max_messages,
        ).queue_messages,
{
}

} // verus!
