use ember::config::{default_motd, default_port, Cli, Config};
use ember::error::WispError;
use ember::wisp::buffer::BufferConfig as RuntimeBufferConfig;

fn cli() -> Cli {
    Cli {
        config: None,
        host: None,
        port: None,
        tls: false,
        cert: None,
        key: None,
        verbose: false,
        thread_per_core: false,
        tui: false,
    }
}

fn config_message(r: Result<(), WispError>) -> String {
    match r {
        Err(WispError::Config(m)) => m,
        other => panic!("unexpected {:?}", other),
    }
}

#[test]
fn defaults_match_documentation() {
    let c = Config::default();
    assert_eq!(c.server.host, "0.0.0.0");
    assert_eq!(c.server.port, 443);
    assert_eq!(c.server.max_connections, 10000);
    assert_eq!(c.server.metrics_port, 9090);
    assert_eq!(c.buffer.initial_size, 128);
    assert_eq!(c.buffer.min_size, 32);
    assert_eq!(c.buffer.max_size, 1024);
    assert_eq!(c.buffer.high_watermark_permille, 800);
    assert_eq!(c.buffer.low_watermark_permille, 200);
    assert_eq!(c.buffer.tcp_read_size, 131072);
    assert_eq!(c.extensions.motd, "Welcome to Ember");
    assert!(c.extensions.udp);
    assert_eq!(c.logging.level, "info");
    assert_eq!(c.circuit_breaker.failure_threshold, 5);
    assert_eq!(c.pool.max_total, 256);
    assert!(c.plugins.logger);
    assert!(c.plugins.rate_limiter.is_none());
    assert_eq!(default_port(), 443);
    assert_eq!(default_motd(), "Welcome to Ember");
    assert!(c.validate().is_ok());
}

#[test]
fn cli_overrides_config() {
    let c = Config::default().apply_cli(&Cli {
        host: Some("127.0.0.1".into()),
        port: Some(8080),
        verbose: true,
        tls: true,
        cert: Some("c.pem".into()),
        ..cli()
    });
    assert_eq!(c.server.host, "127.0.0.1");
    assert_eq!(c.server.port, 8080);
    assert_eq!(c.logging.level, "debug");
    assert!(c.tls.enabled);
    assert_eq!(c.tls.cert_path, "c.pem");
    assert_eq!(c.tls.key_path, "");
    let d = Config::default().apply_cli(&cli());
    assert_eq!(d.server.port, 443);
    assert_eq!(d.logging.level, "info");
}

#[test]
fn tls_requires_paths_and_files() {
    let mut c = Config::default();
    c.tls.enabled = true;
    assert_eq!(config_message(c.validate_with(true, true)), "TLS enabled but no certificate path provided");
    c.tls.cert_path = "/no/cert.pem".into();
    assert_eq!(config_message(c.validate_with(true, true)), "TLS enabled but no key path provided");
    c.tls.key_path = "/no/key.pem".into();
    assert_eq!(config_message(c.validate_with(false, true)), "TLS certificate file not found: /no/cert.pem");
    assert_eq!(config_message(c.validate_with(true, false)), "TLS key file not found: /no/key.pem");
    assert!(c.validate_with(true, true).is_ok());
    assert_eq!(config_message(c.validate()), "TLS certificate file not found: /no/cert.pem");
}

#[test]
fn buffer_sizes_and_watermarks_are_checked() {
    let mut c = Config::default();
    c.buffer.min_size = 200;
    assert_eq!(config_message(c.validate_with(true, true)), "buffer min_size cannot be greater than initial_size");
    let mut c = Config::default();
    c.buffer.max_size = 100;
    assert_eq!(config_message(c.validate_with(true, true)), "buffer initial_size cannot be greater than max_size");
    let mut c = Config::default();
    c.buffer.high_watermark_permille = 200;
    assert_eq!(config_message(c.validate_with(true, true)), "buffer high_watermark must be greater than low_watermark");
}

#[test]
fn runtime_buffer_config_from_file_config() {
    let c = Config::default();
    let r: RuntimeBufferConfig = c.buffer.into();
    assert_eq!(r.initial_size, 128);
    assert_eq!(r.min_size, 32);
    assert_eq!(r.max_size, 1024);
    assert_eq!(r.high_watermark_permille, 800);
    assert_eq!(r.low_watermark_permille, 200);
    assert_eq!(r.max_buffer_bytes, 10 * 1024 * 1024);
}
