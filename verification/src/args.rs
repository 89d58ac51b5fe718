//! The program's options, and the decisions taken from them at start.

use vstd::prelude::*;

verus! {

/// Default of `keep_alive_ms`.
pub const DEFAULT_KEEP_ALIVE_MS: u64 = 100;
/// Default of `max_server_delay_ms`.
pub const DEFAULT_MAX_SERVER_DELAY_MS: u16 = 1;
/// Default of `max_number_of_aggregate_messages`.
pub const DEFAULT_MAX_NUMBER_OF_AGGREGATE_MESSAGES: usize = 1;
/// Default of `listener_interrupt_ms`.
pub const DEFAULT_LISTENER_INTERRUPT_MS: u64 = 300;
/// Default of `max_tunnel_ms`.
pub const DEFAULT_MAX_TUNNEL_MS: u64 = 4000;
/// Default of `udp_port`.
pub const DEFAULT_UDP_PORT: u32 = 9898;
/// Default of `http_port`.
pub const DEFAULT_HTTP_PORT: u32 = 8888;
/// Default of `udp_port_relay_target`.
pub const DEFAULT_UDP_PORT_RELAY_TARGET: &'static str = "127.0.0.1:7777";
/// Default of `http_server`.
pub const DEFAULT_HTTP_SERVER: &'static str = "replace-with-proper-address";
/// Default of `pre_shared_secret`.
pub const DEFAULT_PRE_SHARED_SECRET: &'static str = "very-nice-pre-shared-secret-please-replace-with-proper-secret";

/// Which end of the tunnel the program is.
#[derive(Copy, Clone, PartialEq, Eq, Structural, PartialOrd, Ord, Debug)]
pub enum Mode {
    Server,
    Client,
}

/// The program's options.
#[derive(Debug)]
pub struct Args {
    /// Mode of operation: 'server' or 'client'
    pub mode: Mode,
    /// Number of ms until at least once the client probes the server for new packets (only in client mode)
    pub keep_alive_ms: u64,
    /// Number of ms the server is waiting max before sending back an empty packet-aggregation (only in client mode)
    pub max_server_delay_ms: u16,
    /// Maximum number of messages that can be carried over one http exchange to/from the server (only in client mode)
    pub max_number_of_aggregate_messages: usize,
    /// Number of ms until interface listeners check for new tasks
    pub listener_interrupt_ms: u64,
    /// Number of ms a single client tunnel pass is waited for before aborted (only in client mode)
    pub max_tunnel_ms: u64,
    /// The number of the port on that the program listens for udp packets
    pub udp_port: u32,
    /// The number of the port on that the program listens for http traffic (only in server mode)
    pub http_port: u32,
    /// Address of the udp relay target ("host:port", like "127.0.0.1:7777") (only in server mode)
    pub udp_port_relay_target: String,
    /// Address of the server that accepts http(s) traffic (only in client mode)
    pub http_server: String,
    /// Pre-shared secret to improve security
    pub pre_shared_secret: String,
    /// Verbosity (-v for verbose mode)
    pub verbose: bool,
    /// EXTRA Verbosity (--verbose_all for verbose mode)
    pub verbose_all: bool,
    /// Force the usage of Http protocol version 2
    pub force_http2: bool,
}

impl Args {
    /// The options for `mode` with every other option at its default, as
    /// the command line gives them when only the mode is named.
    pub fn with_defaults(mode: Mode) -> (res: Args)
        ensures
            res.mode == mode,
            res.keep_alive_ms == DEFAULT_KEEP_ALIVE_MS,
            res.max_server_delay_ms == DEFAULT_MAX_SERVER_DELAY_MS,
            res.max_number_of_aggregate_messages == DEFAULT_MAX_NUMBER_OF_AGGREGATE_MESSAGES,
            res.listener_interrupt_ms == DEFAULT_LISTENER_INTERRUPT_MS,
            res.max_tunnel_ms == DEFAULT_MAX_TUNNEL_MS,
            res.udp_port == DEFAULT_UDP_PORT,
            res.http_port == DEFAULT_HTTP_PORT,
            res.udp_port_relay_target@ == DEFAULT_UDP_PORT_RELAY_TARGET@,
            res.http_server@ == DEFAULT_HTTP_SERVER@,
            res.pre_shared_secret@ == DEFAULT_PRE_SHARED_SECRET@,
            !res.verbose,
            !res.verbose_all,
            !res.force_http2,
    {
        Args {
            mode,
            keep_alive_ms: DEFAULT_KEEP_ALIVE_MS,
            max_server_delay_ms: DEFAULT_MAX_SERVER_DELAY_MS,
            max_number_of_aggregate_messages: DEFAULT_MAX_NUMBER_OF_AGGREGATE_MESSAGES,
            listener_interrupt_ms: DEFAULT_LISTENER_INTERRUPT_MS,
            max_tunnel_ms: DEFAULT_MAX_TUNNEL_MS,
            udp_port: DEFAULT_UDP_PORT,
            http_port: DEFAULT_HTTP_PORT,
            udp_port_relay_target: String::from_str(DEFAULT_UDP_PORT_RELAY_TARGET),
            http_server: String::from_str(DEFAULT_HTTP_SERVER),
            pre_shared_secret: String::from_str(DEFAULT_PRE_SHARED_SECRET),
            verbose: false,
            verbose_all: false,
            force_http2: false,
        }
    }
}

/// The log filter the program runs with: everything of its own from `debug`
/// up and nothing of the HTTP libraries; from `trace` up with `verbose`
/// (still without the chattiest libraries); all of it with `verbose_all`.
pub open spec fn spec_log_filter(verbose: bool, verbose_all: bool) -> Seq<char> {
    if verbose_all {
        "trace"@
    } else if verbose {
        "trace,hyper=off,h2=off,tracing=off"@
    } else {
        "debug,actix=off,reqwest=off,hyper=off,h2=off,tracing=off"@
    }
}

/// Computes `spec_log_filter`.
pub fn log_filter(verbose: bool, verbose_all: bool) -> (res: String)
    ensures
        res@ == spec_log_filter(verbose, verbose_all),
{
    if verbose_all {
        String::from_str("trace")
    } else if verbose {
        String::from_str("trace,hyper=off,h2=off,tracing=off")
    } else {
        String::from_str("debug,actix=off,reqwest=off,hyper=off,h2=off,tracing=off")
    }
}

/// A port option as a port number: the option is a `u32`, and a socket
/// address takes it only where it fits in a `u16`.
pub fn port_number(value: u32) -> (res: Option<u16>)
    ensures
        res == (if value <= u16::MAX { Some(value as u16) } else { None::<u16> }),
{
    if value <= 65535 {
        Some(value as u16)
    } else {
        None
    }
}

/// `verbose_all` overrides `verbose`, and the three levels are different
/// filters; only `verbose_all` leaves every library's logs on.
pub proof fn lemma_log_filter_levels(verbose: bool)
    ensures
        spec_log_filter(verbose, true) == "trace"@,
        spec_log_filter(true, false) != spec_log_filter(false, false),
        spec_log_filter(verbose, false) != spec_log_filter(verbose, true),
{
    reveal_strlit("trace");
    reveal_strlit("trace,hyper=off,h2=off,tracing=off");
    reveal_strlit("debug,actix=off,reqwest=off,hyper=off,h2=off,tracing=off");
    assert(spec_log_filter(true, false).len() != spec_log_filter(false, false).len());
}

} // verus!
