use udp_over_https::args::{log_filter, port_number, Args, Mode};

#[test]
fn defaults_match_command_line_defaults() {
    let a = Args::with_defaults(Mode::Client);
    assert_eq!(a.mode, Mode::Client);
    assert_eq!(a.keep_alive_ms, 100);
    assert_eq!(a.max_server_delay_ms, 1);
    assert_eq!(a.max_number_of_aggregate_messages, 1);
    assert_eq!(a.listener_interrupt_ms, 300);
    assert_eq!(a.max_tunnel_ms, 4000);
    assert_eq!(a.udp_port, 9898);
    assert_eq!(a.http_port, 8888);
    assert_eq!(a.udp_port_relay_target, "127.0.0.1:7777");
    assert_eq!(a.http_server, "replace-with-proper-address");
    assert_eq!(
        a.pre_shared_secret,
        "very-nice-pre-shared-secret-please-replace-with-proper-secret"
    );
    assert!(!a.verbose && !a.verbose_all && !a.force_http2);
}

#[test]
fn modes_are_ordered_server_first() {
    assert!(Mode::Server < Mode::Client);
    assert_ne!(Mode::Server, Mode::Client);
}

#[test]
fn log_filter_levels() {
    assert_eq!(
        log_filter(false, false),
        "debug,actix=off,reqwest=off,hyper=off,h2=off,tracing=off"
    );
    assert_eq!(log_filter(true, false), "trace,hyper=off,h2=off,tracing=off");
    assert_eq!(log_filter(false, true), "trace");
    assert_eq!(log_filter(true, true), "trace");
}

#[test]
fn port_numbers_fit_in_u16() {
    assert_eq!(port_number(0), Some(0));
    assert_eq!(port_number(9898), Some(9898));
    assert_eq!(port_number(65535), Some(65535));
    assert_eq!(port_number(65536), None);
    assert_eq!(port_number(u32::MAX), None);
}
