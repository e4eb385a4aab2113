use ember::config::ExtensionsConfig;
use ember::server::{
    connection_admitted, metrics_body, ConnectionGate, metrics_response, motd_of, route_request, server_extensions, MetricsRoute,
};
use ember::wisp::extensions::Extension;
use ember::wisp::plugins::MetricsSnapshot;

#[test]
fn offered_extensions_follow_config() {
    let cfg = ExtensionsConfig { udp: true, motd: "hi".into(), stream_open_confirmation: true };
    assert_eq!(server_extensions(&cfg), vec![Extension::Udp, Extension::Motd, Extension::StreamOpenConfirmation]);
    assert_eq!(motd_of(&cfg), Some("hi".to_string()));
    let cfg = ExtensionsConfig { udp: false, motd: String::new(), stream_open_confirmation: false };
    assert!(server_extensions(&cfg).is_empty());
    assert_eq!(motd_of(&cfg), None);
}

#[test]
fn connection_limit() {
    assert!(connection_admitted(10, 10));
    assert!(!connection_admitted(11, 10));
}

#[test]
fn gate_keeps_live_connections_within_limit() {
    let mut g = ConnectionGate::new(2);
    assert!(g.try_admit());
    assert!(g.try_admit());
    assert!(!g.try_admit());
    assert_eq!(g.live(), 2);
    g.release();
    assert_eq!(g.live(), 1);
    assert!(g.try_admit());
    assert!(!g.try_admit());
    g.release();
    g.release();
    g.release();
    assert_eq!(g.live(), 0);
    let mut closed = ConnectionGate::new(0);
    assert!(!closed.try_admit());
    assert_eq!(closed.live(), 0);
}

#[test]
fn routes_by_request_line() {
    assert_eq!(route_request(b"GET /health HTTP/1.1\r\n"), MetricsRoute::Health);
    assert_eq!(route_request(b"GET /ready HTTP/1.1\r\n"), MetricsRoute::Ready);
    assert_eq!(route_request(b"GET /metrics HTTP/1.1\r\n"), MetricsRoute::Metrics);
    assert_eq!(route_request(b"POST /metrics HTTP/1.1\r\n"), MetricsRoute::NotFound);
    assert_eq!(route_request(b"GET /"), MetricsRoute::NotFound);
}

#[test]
fn health_and_readiness_responses() {
    let m = MetricsSnapshot::zero();
    assert_eq!(
        metrics_response(MetricsRoute::Health, &m, false),
        "HTTP/1.1 200 OK\r\nContent-Type: application/json\r\nContent-Length: 15\r\nConnection: close\r\n\r\n{\"status\":\"ok\"}"
    );
    assert_eq!(
        metrics_response(MetricsRoute::Ready, &m, true),
        "HTTP/1.1 503 Service Unavailable\r\nContent-Type: application/json\r\nContent-Length: 26\r\nConnection: close\r\n\r\n{\"status\":\"shutting_down\"}"
    );
    assert_eq!(
        metrics_response(MetricsRoute::Ready, &m, false),
        "HTTP/1.1 200 OK\r\nContent-Type: application/json\r\nContent-Length: 18\r\nConnection: close\r\n\r\n{\"status\":\"ready\"}"
    );
    assert_eq!(
        metrics_response(MetricsRoute::NotFound, &m, false),
        "HTTP/1.1 404 Not Found\r\nContent-Length: 0\r\nConnection: close\r\n\r\n"
    );
}

#[test]
fn metrics_text_lists_counters() {
    let m = MetricsSnapshot {
        connections_total: 12,
        connections_active: 3,
        streams_total: 40,
        streams_active: 0,
        bytes_in: 1234567,
        bytes_out: 18446744073709551615,
    };
    let body = metrics_body(&m);
    let expected = format!(
        "# HELP ember_connections_active Active connections\n\
         # TYPE ember_connections_active gauge\n\
         ember_connections_active {}\n\
         # HELP ember_connections_total Total connections accepted\n\
         # TYPE ember_connections_total counter\n\
         ember_connections_total {}\n\
         # HELP ember_streams_active Active streams\n\
         # TYPE ember_streams_active gauge\n\
         ember_streams_active {}\n\
         # HELP ember_streams_total Total streams opened\n\
         # TYPE ember_streams_total counter\n\
         ember_streams_total {}\n\
         # HELP ember_bytes_received_total Total bytes received from clients\n\
         # TYPE ember_bytes_received_total counter\n\
         ember_bytes_received_total {}\n\
         # HELP ember_bytes_sent_total Total bytes sent to clients\n\
         # TYPE ember_bytes_sent_total counter\n\
         ember_bytes_sent_total {}\n",
        3, 12, 0, 40, 1234567, u64::MAX
    );
    assert_eq!(body, expected);
    let response = metrics_response(MetricsRoute::Metrics, &m, false);
    assert_eq!(
        response,
        format!(
            "HTTP/1.1 200 OK\r\nContent-Type: text/plain; version=0.0.4; charset=utf-8\r\nContent-Length: {}\r\nConnection: close\r\n\r\n{}",
            expected.len(),
            expected
        )
    );
}
