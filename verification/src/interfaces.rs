//! The body of every tunnel exchange, in both directions.

use vstd::prelude::*;

verus! {

/// The protocol version both ends speak.
pub const CURRENT_PROTOCOL_VERSION: u8 = 1;

/// A JSON body of a tunnel exchange: the datagrams it carries (each as
/// base64 text) and the fields the two ends use to check and pace each other.
#[derive(Debug)]
pub struct HttpData {
    pub version: u8,
    /// How many datagrams still wait in the sender's queue.
    pub queue_messages: u16,
    pub wait_ms: Option<u16>,
    /// How many datagrams the client takes back at most (`None`: no limit).
    pub send_back_mess: Option<u16>,
    pub secret: String,
    pub data: Vec<String>,
}

/// The mathematical content of an `HttpData`.
pub struct HttpDataView {
    pub version: u8,
    pub queue_messages: u16,
    pub wait_ms: Option<u16>,
    pub send_back_mess: Option<u16>,
    pub secret: Seq<char>,
    pub data: Seq<Seq<char>>,
}

/// The texts of a sequence of strings.
pub open spec fn texts(v: Seq<String>) -> Seq<Seq<char>> {
    v.map_values(|s: String| s@)
}

impl View for HttpData {
    type V = HttpDataView;

    open spec fn view(&self) -> HttpDataView {
        HttpDataView {
            version: self.version,
            queue_messages: self.queue_messages,
            wait_ms: self.wait_ms,
            send_back_mess: self.send_back_mess,
            secret: self.secret@,
            data: texts(self.data@),
        }
    }
}

/// A count as it is reported in `queue_messages`: itself where it fits in a
/// `u16`, else `u16::MAX`.
pub open spec fn saturated_count(n: int) -> u16 {
    if n <= u16::MAX {
        n as u16
    } else {
        u16::MAX
    }
}

/// Reports a queue length as `queue_messages` does.
pub fn saturating_count(n: usize) -> (res: u16)
    ensures
        res == saturated_count(n as int),
        n <= u16::MAX ==> res as int == n as int,
        n > u16::MAX ==> res == u16::MAX,
{
    if n <= 65535 {
        n as u16
    } else {
        u16::MAX
    }
}

/// A count is reported as itself whenever it fits in a `u16`, and as
/// `u16::MAX` only when it does not; a reported count never exceeds the count.
pub proof fn lemma_saturated_count(n: int)
    requires
        0 <= n,
    ensures
        n <= u16::MAX ==> saturated_count(n) as int == n,
        n > u16::MAX ==> saturated_count(n) == u16::MAX,
        saturated_count(n) as int <= n,
        forall|m: int| 0 <= m <= n ==> saturated_count(m) <= saturated_count(n),
{
}

} // verus!
