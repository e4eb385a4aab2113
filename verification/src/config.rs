use vstd::prelude::*;

use crate::error::WispError;
use crate::support::text::string_push_str;
use crate::wisp::buffer::BufferConfig as RuntimeBufferConfig;

verus! {

/// The server's whole configuration.
#[derive(Clone, Debug)]
pub struct Config {
    pub server: ServerConfig,
    pub tls: TlsConfig,
    pub buffer: BufferConfig,
    pub extensions: ExtensionsConfig,
    pub logging: LoggingConfig,
    pub plugins: PluginsConfig,
    pub circuit_breaker: CircuitBreakerConfig,
    pub pool: PoolConfig,
}

#[derive(Clone, Debug)]
pub struct PluginsConfig {
    pub rate_limiter: Option<RateLimiterConfig>,
    pub logger: bool,
}

#[derive(Clone, Copy, Debug)]
pub struct RateLimiterConfig {
    pub max_connections_per_ip: u32,
    pub window_secs: u64,
}

#[derive(Clone, Debug)]
pub struct ServerConfig {
    pub host: String,
    pub port: u16,
    pub max_connections: u32,
    pub metrics_port: u16,
}

#[derive(Clone, Debug)]
pub struct TlsConfig {
    pub enabled: bool,
    pub cert_path: String,
    pub key_path: String,
}

/// Buffer settings as the configuration file gives them. The watermarks are
/// fractions of a buffer's capacity in thousandths (800 stands for 0.8).
#[derive(Clone, Copy, Debug)]
pub struct BufferConfig {
    pub initial_size: u32,
    pub min_size: u32,
    pub max_size: u32,
    pub high_watermark_permille: u32,
    pub low_watermark_permille: u32,
    pub tcp_read_size: usize,
    pub max_buffer_bytes: usize,
}

#[derive(Clone, Debug)]
pub struct ExtensionsConfig {
    pub udp: bool,
    pub motd: String,
    pub stream_open_confirmation: bool,
}

#[derive(Clone, Debug)]
pub struct LoggingConfig {
    pub level: String,
    pub file: Option<String>,
    pub max_size_mb: u64,
}

#[derive(Clone, Copy, Debug)]
pub struct PoolConfig {
    pub max_per_target: usize,
    pub max_total: usize,
    pub idle_timeout_secs: u64,
}

#[derive(Clone, Copy, Debug)]
pub struct CircuitBreakerConfig {
    pub enabled: bool,
    pub failure_threshold: u64,
    pub recovery_timeout_secs: u64,
    pub half_open_max: u64,
}

/// The command-line options.
#[derive(Clone, Debug)]
pub struct Cli {
    pub config: Option<String>,
    pub host: Option<String>,
    pub port: Option<u16>,
    pub tls: bool,
    pub cert: Option<String>,
    pub key: Option<String>,
    pub verbose: bool,
    pub thread_per_core: bool,
    pub tui: bool,
}

pub fn default_host() -> (r: String)
    ensures
        r@ == "0.0.0.0"@,
{
    "0.0.0.0".to_owned()
}

pub fn default_port() -> (r: u16)
    ensures
        r == 443,
{
    443
}

pub fn default_max_connections() -> (r: u32)
    ensures
        r == 10000,
{
    10000
}

pub fn default_metrics_port() -> (r: u16)
    ensures
        r == 9090,
{
    9090
}

pub fn default_buffer_initial() -> (r: u32)
    ensures
        r == 128,
{
    128
}

pub fn default_buffer_min() -> (r: u32)
    ensures
        r == 32,
{
    32
}

pub fn default_buffer_max() -> (r: u32)
    ensures
        r == 1024,
{
    1024
}

/// The default high watermark, 0.8, in thousandths.
pub fn default_high_watermark_permille() -> (r: u32)
    ensures
        r == 800,
{
    800
}

/// The default low watermark, 0.2, in thousandths.
pub fn default_low_watermark_permille() -> (r: u32)
    ensures
        r == 200,
{
    200
}

/// 128 KiB.
pub fn default_tcp_read_size() -> (r: usize)
    ensures
        r == 131072,
{
    131072
}

pub fn default_rl_max() -> (r: u32)
    ensures
        r == 100,
{
    100
}

pub fn default_rl_window() -> (r: u64)
    ensures
        r == 60,
{
    60
}

pub fn default_true() -> (r: bool)
    ensures
        r,
{
    true
}

pub fn default_motd() -> (r: String)
    ensures
        r@ == "Welcome to Ember"@,
{
    "Welcome to Ember".to_owned()
}

pub fn default_log_level() -> (r: String)
    ensures
        r@ == "info"@,
{
    "info".to_owned()
}

pub fn default_max_size_mb() -> (r: u64)
    ensures
        r == 100,
{
    100
}

/// 10 MiB.
pub fn default_max_buffer_bytes() -> (r: usize)
    ensures
        r == 10 * 1024 * 1024,
{
    10 * 1024 * 1024
}

pub fn default_pool_max_per_target() -> (r: usize)
    ensures
        r == 16,
{
    16
}

pub fn default_pool_max_total() -> (r: usize)
    ensures
        r == 256,
{
    256
}

pub fn default_pool_idle_timeout_secs() -> (r: u64)
    ensures
        r == 60,
{
    60
}

pub fn default_cb_enabled() -> (r: bool)
    ensures
        r,
{
    true
}

pub fn default_cb_failure_threshold() -> (r: u64)
    ensures
        r == 5,
{
    5
}

pub fn default_cb_recovery_timeout_secs() -> (r: u64)
    ensures
        r == 30,
{
    30
}

pub fn default_cb_half_open_max() -> (r: u64)
    ensures
        r == 3,
{
    3
}

impl Default for PoolConfig {
    fn default() -> (r: Self)
        ensures
            r.max_per_target == 16,
            r.max_total == 256,
            r.idle_timeout_secs == 60,
    {
        PoolConfig {
            max_per_target: default_pool_max_per_target(),
            max_total: default_pool_max_total(),
            idle_timeout_secs: default_pool_idle_timeout_secs(),
        }
    }
}

impl Default for ServerConfig {
    fn default() -> (r: Self)
        ensures
            r.host@ == "0.0.0.0"@,
            r.port == 443,
            r.max_connections == 10000,
            r.metrics_port == 9090,
    {
        ServerConfig {
            host: default_host(),
            port: default_port(),
            max_connections: default_max_connections(),
            metrics_port: default_metrics_port(),
        }
    }
}

impl Default for TlsConfig {
    fn default() -> (r: Self)
        ensures
            !r.enabled,
            r.cert_path@.len() == 0,
            r.key_path@.len() == 0,
    {
        TlsConfig { enabled: false, cert_path: String::new(), key_path: String::new() }
    }
}

impl Default for BufferConfig {
    fn default() -> (r: Self)
        ensures
            r.initial_size == 128,
            r.min_size == 32,
            r.max_size == 1024,
            r.high_watermark_permille == 800,
            r.low_watermark_permille == 200,
            r.tcp_read_size == 131072,
            r.max_buffer_bytes == 10 * 1024 * 1024,
    {
        BufferConfig {
            initial_size: default_buffer_initial(),
            min_size: default_buffer_min(),
            max_size: default_buffer_max(),
            high_watermark_permille: default_high_watermark_permille(),
            low_watermark_permille: default_low_watermark_permille(),
            tcp_read_size: default_tcp_read_size(),
            max_buffer_bytes: default_max_buffer_bytes(),
        }
    }
}

impl Default for ExtensionsConfig {
    fn default() -> (r: Self)
        ensures
            r.udp,
            r.motd@ == "Welcome to Ember"@,
            !r.stream_open_confirmation,
    {
        ExtensionsConfig { udp: true, motd: default_motd(), stream_open_confirmation: false }
    }
}

impl Default for CircuitBreakerConfig {
    fn default() -> (r: Self)
        ensures
            r.enabled,
            r.failure_threshold == 5,
            r.recovery_timeout_secs == 30,
            r.half_open_max == 3,
    {
        CircuitBreakerConfig {
            enabled: default_cb_enabled(),
            failure_threshold: default_cb_failure_threshold(),
            recovery_timeout_secs: default_cb_recovery_timeout_secs(),
            half_open_max: default_cb_half_open_max(),
        }
    }
}

impl Default for PluginsConfig {
    fn default() -> (r: Self)
        ensures
            r.rate_limiter is None,
            r.logger,
    {
        PluginsConfig { rate_limiter: None, logger: true }
    }
}

impl Default for LoggingConfig {
    fn default() -> (r: Self)
        ensures
            r.level@ == "info"@,
            r.file is None,
            r.max_size_mb == 100,
    {
        LoggingConfig { level: default_log_level(), file: None, max_size_mb: default_max_size_mb() }
    }
}

impl Default for Config {
    fn default() -> (r: Self)
        ensures
            r.server.host@ == "0.0.0.0"@,
            r.server.port == 443,
            r.server.max_connections == 10000,
            r.server.metrics_port == 9090,
            !r.tls.enabled,
            r.tls.cert_path@.len() == 0,
            r.tls.key_path@.len() == 0,
            r.buffer.initial_size == 128,
            r.buffer.min_size == 32,
            r.buffer.max_size == 1024,
            r.buffer.high_watermark_permille == 800,
            r.buffer.low_watermark_permille == 200,
            r.buffer.tcp_read_size == 131072,
            r.buffer.max_buffer_bytes == 10 * 1024 * 1024,
            r.extensions.udp,
            r.extensions.motd@ == "Welcome to Ember"@,
            !r.extensions.stream_open_confirmation,
            r.logging.level@ == "info"@,
            r.logging.file is None,
            r.logging.max_size_mb == 100,
            r.plugins.rate_limiter is None,
            r.plugins.logger,
            r.circuit_breaker.enabled,
            r.circuit_breaker.failure_threshold == 5,
            r.circuit_breaker.recovery_timeout_secs == 30,
            r.circuit_breaker.half_open_max == 3,
            r.pool.max_per_target == 16,
            r.pool.max_total == 256,
            r.pool.idle_timeout_secs == 60,
    {
        Config {
            server: ServerConfig::default(),
            tls: TlsConfig::default(),
            buffer: BufferConfig::default(),
            extensions: ExtensionsConfig::default(),
            logging: LoggingConfig::default(),
            plugins: PluginsConfig::default(),
            circuit_breaker: CircuitBreakerConfig::default(),
            pool: PoolConfig::default(),
        }
    }
}

/// The runtime buffer settings that a configured one carries.
pub open spec fn runtime_buffer_config(cfg: BufferConfig) -> RuntimeBufferConfig {
    RuntimeBufferConfig {
        initial_size: cfg.initial_size,
        min_size: cfg.min_size,
        max_size: cfg.max_size,
        high_watermark_permille: cfg.high_watermark_permille,
        low_watermark_permille: cfg.low_watermark_permille,
        max_buffer_bytes: cfg.max_buffer_bytes,
    }
}

/// The runtime settings carry every configured value unchanged: the three
/// sizes, both watermarks and the byte budget.
pub proof fn lemma_runtime_buffer_config_keeps_settings(cfg: BufferConfig)
    ensures
        runtime_buffer_config(cfg).initial_size == cfg.initial_size,
        runtime_buffer_config(cfg).min_size == cfg.min_size,
        runtime_buffer_config(cfg).max_size == cfg.max_size,
        runtime_buffer_config(cfg).high_watermark_permille == cfg.high_watermark_permille,
        runtime_buffer_config(cfg).low_watermark_permille == cfg.low_watermark_permille,
        runtime_buffer_config(cfg).max_buffer_bytes == cfg.max_buffer_bytes,
{
}

impl From<BufferConfig> for RuntimeBufferConfig {
    fn from(cfg: BufferConfig) -> (r: Self)
        ensures
            r.initial_size == cfg.initial_size,
            r.min_size == cfg.min_size,
            r.max_size == cfg.max_size,
            r.high_watermark_permille == cfg.high_watermark_permille,
            r.low_watermark_permille == cfg.low_watermark_permille,
            r.max_buffer_bytes == cfg.max_buffer_bytes,
    {
        RuntimeBufferConfig {
            initial_size: cfg.initial_size,
            min_size: cfg.min_size,
            max_size: cfg.max_size,
            high_watermark_permille: cfg.high_watermark_permille,
            low_watermark_permille: cfg.low_watermark_permille,
            max_buffer_bytes: cfg.max_buffer_bytes,
        }
    }
}

impl vstd::std_specs::convert::FromSpecImpl<BufferConfig> for RuntimeBufferConfig {
    open spec fn obeys_from_spec() -> bool {
        true
    }

    open spec fn from_spec(cfg: BufferConfig) -> RuntimeBufferConfig {
        runtime_buffer_config(cfg)
    }
}

/// `Path::new(p).exists()`: whether a file is there. It depends on the file
/// system, so nothing is stated of it.
#[verifier::external_body]
fn path_exists(p: &str) -> bool {
    std::path::Path::new(p).exists()
}

/// Which rule a configuration breaks first, if any. With TLS enabled the
/// certificate and key paths must be given and their files present; the
/// buffer's minimum, initial and maximum sizes must be in order; and the high
/// watermark must lie above the low one.
pub enum ConfigProblem {
    NoCertPath,
    NoKeyPath,
    CertMissing,
    KeyMissing,
    MinAboveInitial,
    InitialAboveMax,
    WatermarksInverted,
}

/// The first problem of a configuration, given whether the certificate and
/// key files exist.
pub open spec fn config_problem(c: Config, cert_exists: bool, key_exists: bool) -> Option<ConfigProblem> {
    if c.tls.enabled && c.tls.cert_path@.len() == 0 {
        Some(ConfigProblem::NoCertPath)
    } else if c.tls.enabled && c.tls.key_path@.len() == 0 {
        Some(ConfigProblem::NoKeyPath)
    } else if c.tls.enabled && !cert_exists {
        Some(ConfigProblem::CertMissing)
    } else if c.tls.enabled && !key_exists {
        Some(ConfigProblem::KeyMissing)
    } else if c.buffer.min_size > c.buffer.initial_size {
        Some(ConfigProblem::MinAboveInitial)
    } else if c.buffer.initial_size > c.buffer.max_size {
        Some(ConfigProblem::InitialAboveMax)
    } else if c.buffer.high_watermark_permille <= c.buffer.low_watermark_permille {
        Some(ConfigProblem::WatermarksInverted)
    } else {
        None
    }
}

/// The message of the configuration error for a problem.
pub open spec fn problem_message(p: ConfigProblem, c: Config) -> Seq<char> {
    match p {
        ConfigProblem::NoCertPath => "TLS enabled but no certificate path provided"@,
        ConfigProblem::NoKeyPath => "TLS enabled but no key path provided"@,
        ConfigProblem::CertMissing => "TLS certificate file not found: "@ + c.tls.cert_path@,
        ConfigProblem::KeyMissing => "TLS key file not found: "@ + c.tls.key_path@,
        ConfigProblem::MinAboveInitial => "buffer min_size cannot be greater than initial_size"@,
        ConfigProblem::InitialAboveMax => "buffer initial_size cannot be greater than max_size"@,
        ConfigProblem::WatermarksInverted => "buffer high_watermark must be greater than low_watermark"@,
    }
}

/// The configuration error whose message is `prefix` followed by `rest`.
pub(crate) fn config_error(prefix: &str, rest: &str) -> (r: WispError)
    ensures
        r matches WispError::Config(m) && m@ == prefix@ + rest@,
{
    let mut m = prefix.to_owned();
    string_push_str(&mut m, rest);
    WispError::Config(m)
}

/// The configuration error whose message is `msg`.
fn config_message(msg: &str) -> (r: WispError)
    ensures
        r matches WispError::Config(m) && m@ == msg@,
{
    WispError::Config(msg.to_owned())
}

/// The outcome of validation: `Ok` when no rule is broken, otherwise the
/// configuration error of the first problem.
pub open spec fn validation_outcome(r: Result<(), WispError>, c: Config, cert_exists: bool, key_exists: bool) -> bool {
    match config_problem(c, cert_exists, key_exists) {
        None => r is Ok,
        Some(p) => r matches Err(WispError::Config(m)) && m@ == problem_message(p, c),
    }
}

impl Config {
    /// Checks the configuration's rules, given whether the certificate and
    /// key files exist.
    pub fn validate_with(&self, cert_exists: bool, key_exists: bool) -> (r: Result<(), WispError>)
        ensures
            validation_outcome(r, *self, cert_exists, key_exists),
    {
        if self.tls.enabled {
            if self.tls.cert_path.as_str().is_empty() {
                return Err(config_message("TLS enabled but no certificate path provided"));
            }
            if self.tls.key_path.as_str().is_empty() {
                return Err(config_message("TLS enabled but no key path provided"));
            }
            if !cert_exists {
                return Err(config_error("TLS certificate file not found: ", self.tls.cert_path.as_str()));
            }
            if !key_exists {
                return Err(config_error("TLS key file not found: ", self.tls.key_path.as_str()));
            }
        }
        if self.buffer.min_size > self.buffer.initial_size {
            return Err(config_message("buffer min_size cannot be greater than initial_size"));
        }
        if self.buffer.initial_size > self.buffer.max_size {
            return Err(config_message("buffer initial_size cannot be greater than max_size"));
        }
        if self.buffer.high_watermark_permille <= self.buffer.low_watermark_permille {
            return Err(config_message("buffer high_watermark must be greater than low_watermark"));
        }
        Ok(())
    }

    /// Checks the configuration's rules; whether the TLS files exist is
    /// asked of the file system.
    pub fn validate(&self) -> (r: Result<(), WispError>)
        ensures
            exists|cert_exists: bool, key_exists: bool| validation_outcome(r, *self, cert_exists, key_exists),
            !self.tls.enabled ==> validation_outcome(r, *self, true, true),
    {
        let (cert_exists, key_exists) = if self.tls.enabled {
            (path_exists(self.tls.cert_path.as_str()), path_exists(self.tls.key_path.as_str()))
        } else {
            (true, true)
        };
        let r = self.validate_with(cert_exists, key_exists);
        assert(validation_outcome(r, *self, cert_exists, key_exists));
        r
    }

    /// The configuration with the command-line options laid over it: a given
    /// host, port, certificate or key replaces the configured one, `--tls`
    /// enables TLS and `--verbose` sets the log level to debug.
    pub fn apply_cli(self, cli: &Cli) -> (r: Config)
        ensures
            r.server.host@ == (match cli.host { Some(h) => h@, None => self.server.host@ }),
            r.server.port == (match cli.port { Some(p) => p, None => self.server.port }),
            r.server.max_connections == self.server.max_connections,
            r.server.metrics_port == self.server.metrics_port,
            r.tls.enabled == (self.tls.enabled || cli.tls),
            r.tls.cert_path@ == (match cli.cert { Some(c) => c@, None => self.tls.cert_path@ }),
            r.tls.key_path@ == (match cli.key { Some(k) => k@, None => self.tls.key_path@ }),
            r.logging.level@ == (if cli.verbose { "debug"@ } else { self.logging.level@ }),
            r.logging.file == self.logging.file,
            r.logging.max_size_mb == self.logging.max_size_mb,
            r.buffer == self.buffer,
            r.extensions == self.extensions,
            r.plugins == self.plugins,
            r.circuit_breaker == self.circuit_breaker,
            r.pool == self.pool,
    {
        let mut config = self;
        match &cli.host {
            Some(host) => config.server.host = host.clone(),
            None => {},
        }
        match cli.port {
            Some(port) => config.server.port = port,
            None => {},
        }
        if cli.tls {
            config.tls.enabled = true;
        }
        match &cli.cert {
            Some(cert) => config.tls.cert_path = cert.clone(),
            None => {},
        }
        match &cli.key {
            Some(key) => config.tls.key_path = key.clone(),
            None => {},
        }
        if cli.verbose {
            config.logging.level = "debug".to_owned();
        }
        config
    }
}

/// A configuration that passes validation keeps every stream buffer's
/// capacity between the minimum and the maximum size.
pub proof fn lemma_valid_config_orders_buffer_sizes(c: Config, cert_exists: bool, key_exists: bool)
    requires
        config_problem(c, cert_exists, key_exists) is None,
    ensures
        runtime_buffer_config(c.buffer).sizes_ordered(),
        c.buffer.high_watermark_permille > c.buffer.low_watermark_permille,
{
}

} // verus!
