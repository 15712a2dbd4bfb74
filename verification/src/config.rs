//! Strongly-typed configuration of the services.
//!
//! The values are read from the environment by the service binaries; this
//! module holds the structures, their defaults and the derived durations.

use vstd::prelude::*;
use std::time::Duration;

mod defaults;

verus! {

/// Configuration for the auxiliary HTTP server exposing health and metrics.
#[derive(Debug, Clone)]
pub struct AdminConfig {
    /// Socket address to bind, e.g. `0.0.0.0:9090`.
    pub bind_addr: String,
}

impl Default for AdminConfig {
    fn default() -> (c: Self)
        ensures
            c.bind_addr@ == "0.0.0.0:9090"@,
    {
        Self { bind_addr: defaults::admin_bind_addr() }
    }
}

/// Kafka producer configuration shared across services that publish messages.
#[derive(Debug, Clone)]
pub struct KafkaConfig {
    /// Comma-separated broker list, e.g. `localhost:9092`.
    pub brokers: String,
    /// Client identifier for observability.
    pub client_id: String,
    /// Kafka linger.ms setting in milliseconds.
    pub linger_ms: u64,
    /// Kafka batch.size setting in bytes.
    pub batch_bytes: usize,
    /// Number of retries on temporary failures.
    pub retries: usize,
    /// Optional SASL mechanism (e.g. `PLAIN`); empty to disable.
    pub sasl_mechanism: Option<String>,
    /// Optional SASL username.
    pub sasl_username: Option<String>,
    /// Optional SASL password / token.
    pub sasl_password: Option<String>,
    /// Optional security protocol override (e.g. `SASL_SSL`).
    pub security_protocol: Option<String>,
}

impl Default for KafkaConfig {
    fn default() -> (c: Self)
        ensures
            c.brokers@ == "localhost:9092"@,
            c.client_id@ == "gmocoin-service"@,
            c.linger_ms == 5,
            c.batch_bytes == 512 * 1024,
            c.retries == 5,
            c.sasl_mechanism is None,
            c.sasl_username is None,
            c.sasl_password is None,
            c.security_protocol is None,
    {
        Self {
            brokers: defaults::kafka_brokers(),
            client_id: defaults::kafka_client_id(),
            linger_ms: defaults::kafka_linger_ms(),
            batch_bytes: defaults::kafka_batch_bytes(),
            retries: defaults::kafka_retries(),
            sasl_mechanism: None,
            sasl_username: None,
            sasl_password: None,
            security_protocol: None,
        }
    }
}

/// Topic names used by the ingestor publisher.
#[derive(Debug, Clone)]
pub struct KafkaTopics {
    /// Trades topic (protobuf payloads).
    pub trades: String,
    /// Ticker topic (protobuf payloads).
    pub ticker: String,
    /// Order book snapshot topic (protobuf payloads).
    pub orderbook: String,
}

impl Default for KafkaTopics {
    fn default() -> (c: Self)
        ensures
            c.trades@ == "gmo.market.trades"@,
            c.ticker@ == "gmo.market.ticker"@,
            c.orderbook@ == "gmo.market.orderbook.snapshot"@,
    {
        Self {
            trades: defaults::topic_trades(),
            ticker: defaults::topic_ticker(),
            orderbook: defaults::topic_orderbook(),
        }
    }
}

/// ClickHouse connection configuration.
#[derive(Debug, Clone)]
pub struct ClickHouseConfig {
    /// ClickHouse HTTP endpoint, e.g. `http://localhost:8123`.
    pub url: String,
    /// Database to query against.
    pub database: String,
    /// Optional username for authentication.
    pub username: Option<String>,
    /// Optional password/token for authentication.
    pub password: Option<String>,
    /// Query timeout in seconds.
    pub timeout_secs: u64,
}

impl Default for ClickHouseConfig {
    fn default() -> (c: Self)
        ensures
            c.url@ == "http://localhost:8123"@,
            c.database@ == "gmo"@,
            c.username is None,
            c.password is None,
            c.timeout_secs == 30,
    {
        Self {
            url: defaults::clickhouse_url(),
            database: defaults::clickhouse_database(),
            username: None,
            password: None,
            timeout_secs: defaults::clickhouse_timeout_secs(),
        }
    }
}

/// Name for the `Duration` that `Duration::from_secs` makes of a count of seconds.
pub uninterp spec fn secs_duration(secs: u64) -> Duration;

/// Name for the `Duration` that `Duration::from_millis` makes of a count of milliseconds.
pub uninterp spec fn millis_duration(ms: u64) -> Duration;

/// `Duration::from_secs`: the duration of `secs` whole seconds, which is
/// also the duration of `secs * 1000` milliseconds (`Duration::from_millis`)
/// when that count fits in a `u64`.
#[verifier::external_body]
fn duration_from_secs(secs: u64) -> (d: Duration)
    ensures
        d == secs_duration(secs),
        secs <= u64::MAX / 1000 ==> d == millis_duration((secs * 1000) as u64),
{
    Duration::from_secs(secs)
}

/// `Duration::from_millis`: the duration of `ms` milliseconds, which is the
/// duration of `ms / 1000` whole seconds (`Duration::from_secs`) when `ms` is
/// a whole number of seconds.
#[verifier::external_body]
fn duration_from_millis(ms: u64) -> (d: Duration)
    ensures
        d == millis_duration(ms),
        ms % 1000 == 0 ==> d == secs_duration(ms / 1000),
{
    Duration::from_millis(ms)
}

/// The larger of a value and one (`u64::max(v, 1)`).
pub open spec fn at_least_one(v: u64) -> u64 {
    if v < 1 {
        1
    } else {
        v
    }
}

fn max_one(v: u64) -> (r: u64)
    ensures
        r == at_least_one(v),
        r >= 1,
{
    if v < 1 {
        1
    } else {
        v
    }
}

impl ClickHouseConfig {
    /// Returns the configured timeout as a [`Duration`].
    pub fn timeout(&self) -> (d: Duration)
        ensures
            d == secs_duration(self.timeout_secs),
            self.timeout_secs <= u64::MAX / 1000 ==> d == millis_duration((self.timeout_secs * 1000) as u64),
    {
        duration_from_secs(self.timeout_secs)
    }
}

/// Configuration for the WebSocket ingestor service.
#[derive(Debug, Clone)]
pub struct IngestorConfig {
    /// Public GMO Coin WebSocket endpoint. Defaults to v1.
    pub ws_endpoint: String,
    /// Symbols to subscribe to (e.g. `BTC_JPY`).
    pub symbols: Vec<String>,
    /// Channels to subscribe to (ticker/trades/orderbooks).
    pub channels: Vec<String>,
    /// Minimum delay between subscription requests in milliseconds.
    pub subscribe_min_interval_ms: u64,
    /// Interval for sending ping frames to the server in seconds.
    pub ping_interval_secs: u64,
    /// Timeout waiting for a pong before reconnecting in seconds.
    pub pong_timeout_secs: u64,
    /// Base backoff duration in milliseconds for reconnect attempts.
    pub reconnect_base_delay_ms: u64,
    /// Maximum backoff duration in milliseconds.
    pub reconnect_max_delay_ms: u64,
    /// Jitter upper bound in milliseconds.
    pub reconnect_jitter_ms: u64,
    /// Kafka publication settings.
    pub kafka: KafkaConfig,
    /// Logical topic names for each channel.
    pub topics: KafkaTopics,
    /// HTTP admin endpoints (liveness/readiness/metrics).
    pub admin: AdminConfig,
}

impl Default for IngestorConfig {
    fn default() -> (c: Self)
        ensures
            c.ws_endpoint@ == "wss://api.coin.z.com/ws/public/v1"@,
            c.symbols@.len() == 2,
            c.symbols@[0]@ == "BTC_JPY"@,
            c.symbols@[1]@ == "ETH_JPY"@,
            c.channels@.len() == 3,
            c.channels@[0]@ == "ticker"@,
            c.channels@[1]@ == "trades"@,
            c.channels@[2]@ == "orderbooks"@,
            c.subscribe_min_interval_ms == 1_000,
            c.ping_interval_secs == 30,
            c.pong_timeout_secs == 10,
            c.reconnect_base_delay_ms == 1_000,
            c.reconnect_max_delay_ms == 30_000,
            c.reconnect_jitter_ms == 500,
            c.kafka.brokers@ == "localhost:9092"@,
            c.kafka.client_id@ == "gmocoin-service"@,
            c.kafka.linger_ms == 5,
            c.kafka.batch_bytes == 512 * 1024,
            c.kafka.retries == 5,
            c.kafka.sasl_mechanism is None,
            c.kafka.sasl_username is None,
            c.kafka.sasl_password is None,
            c.kafka.security_protocol is None,
            c.topics.trades@ == "gmo.market.trades"@,
            c.topics.ticker@ == "gmo.market.ticker"@,
            c.topics.orderbook@ == "gmo.market.orderbook.snapshot"@,
            c.admin.bind_addr@ == "0.0.0.0:9090"@,
    {
        Self {
            ws_endpoint: defaults::ws_endpoint(),
            symbols: defaults::symbols(),
            channels: defaults::channels(),
            subscribe_min_interval_ms: defaults::subscribe_min_interval_ms(),
            ping_interval_secs: defaults::ping_interval_secs(),
            pong_timeout_secs: defaults::pong_timeout_secs(),
            reconnect_base_delay_ms: defaults::reconnect_base_ms(),
            reconnect_max_delay_ms: defaults::reconnect_max_ms(),
            reconnect_jitter_ms: defaults::reconnect_jitter_ms(),
            kafka: KafkaConfig::default(),
            topics: KafkaTopics::default(),
            admin: AdminConfig::default(),
        }
    }
}

impl IngestorConfig {
    /// Minimum spacing between subscription calls (at least one millisecond;
    /// a whole number of seconds when the setting is one, as the default of
    /// one second is).
    pub fn subscribe_min_interval(&self) -> (d: Duration)
        ensures
            d == millis_duration(at_least_one(self.subscribe_min_interval_ms)),
            at_least_one(self.subscribe_min_interval_ms) % 1000 == 0
                ==> d == secs_duration(at_least_one(self.subscribe_min_interval_ms) / 1000),
    {
        duration_from_millis(max_one(self.subscribe_min_interval_ms))
    }

    /// Base reconnect delay (at least one millisecond).
    pub fn reconnect_base_delay(&self) -> (d: Duration)
        ensures
            d == millis_duration(at_least_one(self.reconnect_base_delay_ms)),
    {
        duration_from_millis(max_one(self.reconnect_base_delay_ms))
    }

    /// Maximum reconnect delay (at least one millisecond).
    pub fn reconnect_max_delay(&self) -> (d: Duration)
        ensures
            d == millis_duration(at_least_one(self.reconnect_max_delay_ms)),
    {
        duration_from_millis(max_one(self.reconnect_max_delay_ms))
    }

    /// Ping interval (at least one second).
    pub fn ping_interval(&self) -> (d: Duration)
        ensures
            d == secs_duration(at_least_one(self.ping_interval_secs)),
            at_least_one(self.ping_interval_secs) <= u64::MAX / 1000
                ==> d == millis_duration((at_least_one(self.ping_interval_secs) * 1000) as u64),
    {
        duration_from_secs(max_one(self.ping_interval_secs))
    }

    /// Pong timeout (at least one second).
    pub fn pong_timeout(&self) -> (d: Duration)
        ensures
            d == secs_duration(at_least_one(self.pong_timeout_secs)),
            at_least_one(self.pong_timeout_secs) <= u64::MAX / 1000
                ==> d == millis_duration((at_least_one(self.pong_timeout_secs) * 1000) as u64),
    {
        duration_from_secs(max_one(self.pong_timeout_secs))
    }
}

/// Optional bearer token configuration for the gRPC API.
#[derive(Debug, Clone)]
pub struct BearerAuthConfig {
    /// Static bearer token value.
    pub token: String,
}

/// Runtime query limits for the backtesting API.
#[derive(Debug, Clone)]
pub struct QueryLimits {
    /// Default page size for ClickHouse streaming queries.
    pub default_page_size: usize,
    /// Maximum page size clients may request.
    pub max_page_size: usize,
}

impl Default for QueryLimits {
    fn default() -> (c: Self)
        ensures
            c.default_page_size == 5_000,
            c.max_page_size == 50_000,
    {
        Self {
            default_page_size: defaults::query_default_page_size(),
            max_page_size: defaults::query_max_page_size(),
        }
    }
}

/// Backtesting API configuration.
#[derive(Debug, Clone)]
pub struct BacktesterConfig {
    /// gRPC bind address.
    pub grpc_bind_addr: String,
    /// Admin HTTP endpoints (health/metrics).
    pub admin: AdminConfig,
    /// ClickHouse access configuration.
    pub clickhouse: ClickHouseConfig,
    /// Optional bearer authentication.
    pub bearer_auth: Option<BearerAuthConfig>,
    /// Query constraint defaults.
    pub limits: QueryLimits,
}

impl Default for BacktesterConfig {
    fn default() -> (c: Self)
        ensures
            c.grpc_bind_addr@ == "0.0.0.0:8080"@,
            c.admin.bind_addr@ == "0.0.0.0:9090"@,
            c.clickhouse.url@ == "http://localhost:8123"@,
            c.clickhouse.database@ == "gmo"@,
            c.clickhouse.username is None,
            c.clickhouse.password is None,
            c.clickhouse.timeout_secs == 30,
            c.bearer_auth is None,
            c.limits.default_page_size == 5_000,
            c.limits.max_page_size == 50_000,
    {
        Self {
            grpc_bind_addr: defaults::grpc_bind_addr(),
            admin: AdminConfig::default(),
            clickhouse: ClickHouseConfig::default(),
            bearer_auth: None,
            limits: QueryLimits::default(),
        }
    }
}

impl BacktesterConfig {
    /// Determines if bearer authentication is enabled.
    pub fn bearer_enabled(&self) -> (b: bool)
        ensures
            b == self.bearer_auth is Some,
    {
        self.bearer_auth.is_some()
    }
}

} // verus!
