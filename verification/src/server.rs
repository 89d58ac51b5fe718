//! The server end: which requests it accepts, and the reply it builds from
//! the datagrams waiting for the client.

use vstd::prelude::*;
use crate::channel::{channel_len, channel_try_recv};
use crate::interfaces::{
    saturated_count, saturating_count, texts, HttpData, HttpDataView, CURRENT_PROTOCOL_VERSION,
};

verus! {

/// Why the server turns a request down.
#[derive(Debug, Clone, Copy, PartialEq, Eq, Structural)]
pub enum Rejection {
    /// The request speaks another protocol version.
    WrongProtocolVersion,
    /// The request does not carry the pre-shared secret.
    InvalidSecret,
}

/// The HTTP status code of a rejection.
pub open spec fn rejection_status(r: Rejection) -> u16 {
    match r {
        Rejection::WrongProtocolVersion => 400,
        Rejection::InvalidSecret => 401,
    }
}

/// The response body of a rejection.
pub open spec fn rejection_text(r: Rejection) -> Seq<char> {
    match r {
        Rejection::WrongProtocolVersion => "Wrong Protocol Version"@,
        Rejection::InvalidSecret => "No valid authorization"@,
    }
}

impl Rejection {
    /// The HTTP status code the server answers with: Bad Request for a wrong
    /// version, Unauthorized for a wrong secret.
    pub fn status_code(&self) -> (res: u16)
        ensures
            res == rejection_status(*self),
    {
        match self {
            Rejection::WrongProtocolVersion => 400,
            Rejection::InvalidSecret => 401,
        }
    }

    /// The text the server answers with.
    pub fn message(&self) -> (res: String)
        ensures
            res@ == rejection_text(*self),
    {
        match self {
            Rejection::WrongProtocolVersion => String::from_str("Wrong Protocol Version"),
            Rejection::InvalidSecret => String::from_str("No valid authorization"),
        }
    }
}

/// The server's verdict on a request: the version is checked first, then the
/// pre-shared secret.
pub open spec fn request_verdict(request: HttpDataView, secret: Seq<char>) -> Result<(), Rejection> {
    if request.version != CURRENT_PROTOCOL_VERSION {
        Err(Rejection::WrongProtocolVersion)
    } else if request.secret != secret {
        Err(Rejection::InvalidSecret)
    } else {
        Ok(())
    }
}

/// Checks a request against the protocol version and the server's secret.
pub fn check_client_request(request: &HttpData, secret: &String) -> (res: Result<(), Rejection>)
    ensures
        res == request_verdict(request@, secret@),
{
    if request.version != CURRENT_PROTOCOL_VERSION {
        Err(Rejection::WrongProtocolVersion)
    } else if request.secret != *secret {
        Err(Rejection::InvalidSecret)
    } else {
        Ok(())
    }
}

/// How many datagrams a reply may carry back: the client's `send_back_mess`,
/// or `u16::MAX` where it sets none.
pub open spec fn send_back_limit(send_back_mess: Option<u16>) -> u16 {
    match send_back_mess {
        Some(v) => v,
        None => u16::MAX,
    }
}

/// The reply the server sends: its own version and secret, the datagrams it
/// took from its queue, and how many it left there.
pub open spec fn server_reply(secret: Seq<char>, data: Seq<Seq<char>>, queued: int) -> HttpDataView {
    HttpDataView {
        version: CURRENT_PROTOCOL_VERSION,
        queue_messages: saturated_count(queued),
        wait_ms: None,
        send_back_mess: None,
        secret: secret,
        data: data,
    }
}

/// A reply being filled from the server's queue.
pub struct ReplyAssembly {
    remaining: u16,
    data: Vec<String>,
    drained: bool,
}

/// The content of a `ReplyAssembly`: how many more datagrams it may take,
/// those it took, and whether the queue was found empty.
pub struct ReplyAssemblyView {
    pub remaining: u16,
    pub data: Seq<Seq<char>>,
    pub drained: bool,
}

impl View for ReplyAssembly {
    type V = ReplyAssemblyView;

    closed spec fn view(&self) -> ReplyAssemblyView {
        ReplyAssemblyView { remaining: self.remaining, data: texts(self.data@), drained: self.drained }
    }
}

impl ReplyAssembly {
    /// Starts a reply for a request with the given `send_back_mess`.
    pub fn new(send_back_mess: Option<u16>) -> (res: Self)
        ensures
            res@.remaining == send_back_limit(send_back_mess),
            send_back_mess is None ==> res@.remaining == u16::MAX,
            send_back_mess matches Some(v) ==> res@.remaining == v,
            res@.data == Seq::<Seq<char>>::empty(),
            !res@.drained,
    {
        let remaining = match send_back_mess {
            Some(v) => v,
            None => u16::MAX,
        };
        let res = ReplyAssembly { remaining, data: Vec::new(), drained: false };
        assert(res@.data =~= Seq::<Seq<char>>::empty());
        res
    }

    /// Whether the reply takes another datagram from the queue.
    pub fn wants_more(&self) -> (res: bool)
        ensures
            res == (!self@.drained && self@.remaining > 0),
    {
        !self.drained && self.remaining > 0
    }

    /// Whether the queue was found empty.
    pub fn is_drained(&self) -> (res: bool)
        ensures
            res == self@.drained,
    {
        self.drained
    }

    /// Takes what the queue gave: a datagram is added, and an empty queue
    /// ends the reply.
    pub fn offer(&mut self, pulled: Option<String>)
        requires
            old(self)@.remaining > 0,
        ensures
            (match pulled {
                Some(m) => {
                    &&& final(self)@.remaining == old(self)@.remaining - 1
                    &&& final(self)@.data == old(self)@.data.push(m@)
                    &&& final(self)@.drained == old(self)@.drained
                },
                None => {
                    &&& final(self)@.remaining == old(self)@.remaining
                    &&& final(self)@.data == old(self)@.data
                    &&& final(self)@.drained
                },
            }),
    {
        match pulled {
            Some(m) => {
                let ghost old_data = self.data@;
                self.data.push(m);
                self.remaining = self.remaining - 1;
                assert(texts(self.data@) =~= texts(old_data).push(self.data@.last()@));
            },
            None => {
                self.drained = true;
            },
        }
    }

    /// The reply, given the server's secret and how many datagrams are still
    /// queued.
    pub fn into_reply(self, secret: &String, queued: usize) -> (res: HttpData)
        ensures
            res@ == server_reply(secret@, self@.data, queued as int),
            queued <= u16::MAX ==> res@.queue_messages as int == queued as int,
            queued > u16::MAX ==> res@.queue_messages == u16::MAX,
    {
        HttpData {
            version: CURRENT_PROTOCOL_VERSION,
            queue_messages: saturating_count(queued),
            wait_ms: None,
            send_back_mess: None,
            secret: secret.clone(),
            data: self.data,
        }
    }
}

/// Fills a reply from the server's queue of datagrams: it takes datagrams
/// one after the other, keeping those it already holds, until the queue
/// answers empty or the reply holds as many as it may.
pub fn fill_reply(reply: &mut ReplyAssembly, receiver: &async_channel::Receiver<String>)
    ensures
        final(reply)@.drained || final(reply)@.remaining == 0,
        final(reply)@.data.len() + final(reply)@.remaining == old(reply)@.data.len()
            + old(reply)@.remaining,
        final(reply)@.data.len() >= old(reply)@.data.len(),
        final(reply)@.data.subrange(0, old(reply)@.data.len() as int) == old(reply)@.data,
        old(reply)@.drained ==> final(reply)@ == old(reply)@,
{
    let ghost start = reply@;
    while reply.wants_more()
        invariant
            reply@.data.len() + reply@.remaining == start.data.len() + start.remaining,
            reply@.data.len() >= start.data.len(),
            reply@.data.subrange(0, start.data.len() as int) == start.data,
            start.drained ==> reply@ == start,
        decreases reply@.remaining, if reply@.drained { 0int } else { 1int },
    {
        let pulled = channel_try_recv(receiver);
        let ghost before = reply@.data;
        reply.offer(pulled);
        assert(reply@.data.subrange(0, start.data.len() as int) =~= before.subrange(
            0,
            start.data.len() as int,
        ));
    }
}

/// Builds the reply to an accepted request from the server's queue of
/// datagrams: it takes datagrams until the queue is empty or the client's
/// `send_back_mess` is reached, then reports how many are left. The second
/// result tells whether the queue was found empty; where it was not, the
/// reply carries the full `send_back_mess`.
pub fn collect_reply(
    receiver: &async_channel::Receiver<String>,
    send_back_mess: Option<u16>,
    secret: &String,
) -> (res: (HttpData, bool))
    ensures
        res.0@.version == CURRENT_PROTOCOL_VERSION,
        res.0@.secret == secret@,
        res.0@.wait_ms is None,
        res.0@.send_back_mess is None,
        res.0@.data.len() <= send_back_limit(send_back_mess),
        res.1 || res.0@.data.len() == send_back_limit(send_back_mess),
        send_back_mess is None ==> (res.1 || res.0@.data.len() == u16::MAX),
        send_back_mess matches Some(v) ==> (res.1 || res.0@.data.len() == v),
{
    let mut reply = ReplyAssembly::new(send_back_mess);
    fill_reply(&mut reply, receiver);
    let drained = reply.is_drained();
    let queued = channel_len(receiver);
    (reply.into_reply(secret, queued), drained)
}

/// Without `send_back_mess` a reply is limited by nothing but the largest
/// count a `u16` holds: it may take at least as many datagrams as any limit a
/// client could set, and a limit the client sets is taken as it is.
pub proof fn lemma_send_back_limit(v: u16)
    ensures
        send_back_limit(None) >= v,
        send_back_limit(None) == u16::MAX,
        send_back_limit(Some(v)) == v,
        send_back_limit(Some(v)) <= send_back_limit(None),
{
}

/// A reply reports the number of datagrams left in the server's queue
/// whenever it fits in a `u16`, and `u16::MAX` only when it does not; the
/// rest of the reply does not depend on that number.
pub proof fn lemma_reply_queue_count(secret: Seq<char>, data: Seq<Seq<char>>, queued: int, other: int)
    requires
        0 <= queued,
        0 <= other,
    ensures
        queued <= u16::MAX ==> server_reply(secret, data, queued).queue_messages as int == queued,
        queued > u16::MAX ==> server_reply(secret, data, queued).queue_messages == u16::MAX,
        server_reply(secret, data, queued).queue_messages as int <= queued,
        server_reply(secret, data, queued).data == data,
        server_reply(secret, data, queued).secret == secret,
        queued != other && queued <= u16::MAX && other <= u16::MAX ==> server_reply(
            secret,
            data,
            queued,
        ).queue_messages != server_reply(secret, data, other).queue_messages,
{
}

/// The version is checked before the secret: a request of another version
/// is refused as such whatever secret it carries, and a request of the right
/// version is accepted exactly when it carries the server's secret.
pub proof fn lemma_version_checked_first(request: HttpDataView, secret: Seq<char>, other: Seq<char>)
    ensures
        request.version != CURRENT_PROTOCOL_VERSION ==> request_verdict(request, secret)
            == Err::<(), Rejection>(Rejection::WrongProtocolVersion) && request_verdict(request, other)
            == request_verdict(request, secret),
        request.version == CURRENT_PROTOCOL_VERSION ==> (request_verdict(request, secret) is Ok
            <==> request.secret == secret),
{
}

/// Both rejections are client errors (4xx), told apart by their codes and
/// texts.
pub proof fn lemma_rejection_statuses()
    ensures
        forall|r: Rejection| 400 <= #[trigger] rejection_status(r) < 500,
        rejection_status(Rejection::WrongProtocolVersion) != rejection_status(Rejection::InvalidSecret),
        rejection_text(Rejection::WrongProtocolVersion) != rejection_text(Rejection::InvalidSecret),
{
    reveal_strlit("Wrong Protocol Version");
    reveal_strlit("No valid authorization");
    assert(rejection_text(Rejection::WrongProtocolVersion)[0] != rejection_text(Rejection::InvalidSecret)[0]);
}

} // verus!
