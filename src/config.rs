//! Configuration values and the checks they must pass before the server
//! starts.
use crate::text::{decimal, decimal_text, has_prefix, starts_with};
use vstd::prelude::*;

verus! {

/// Where the server listens.
#[derive(Debug, Clone, PartialEq, Eq)]
pub struct ServerConfig {
    pub host: String,
    pub port: u16,
    pub log_level: String,
    pub workers: Option<usize>,
}

/// Performance switches and limits.
#[derive(Debug, Clone, PartialEq, Eq)]
pub struct PerformanceConfig {
    pub enable_compression: bool,
    pub enable_metrics: bool,
    pub cache_size: usize,
    pub rate_limit_per_second: u32,
    pub max_connections: usize,
    pub client_timeout_ms: u64,
    pub keep_alive_seconds: u64,
}

/// Monitoring endpoints.
#[derive(Debug, Clone, PartialEq, Eq)]
pub struct MonitoringConfig {
    pub metrics_endpoint: String,
    pub health_endpoint: String,
    pub enable_tracing: bool,
    pub request_timeout_seconds: u64,
}

/// Cache lifetimes.
#[derive(Debug, Clone, PartialEq, Eq)]
pub struct CacheConfig {
    pub card_range_ttl_seconds: u64,
    pub challenge_decision_ttl_seconds: u64,
    pub static_response_ttl_seconds: u64,
}

/// The key-value service that holds the transactions.
#[derive(Debug, Clone, PartialEq, Eq)]
pub struct RedisConfig {
    pub url: String,
    pub ttl_seconds: u64,
    pub key_prefix: String,
    pub connection: ConnectionConfig,
    pub pool: PoolConfig,
}

/// Connection timeouts and retries.
#[derive(Debug, Clone, PartialEq, Eq)]
pub struct ConnectionConfig {
    pub timeout_ms: u64,
    pub max_retries: u32,
    pub retry_delay_ms: u64,
}

/// Connection pool sizes.
#[derive(Debug, Clone, PartialEq, Eq)]
pub struct PoolConfig {
    pub max_size: u32,
    pub min_idle: u32,
    pub connection_timeout_seconds: u64,
    pub idle_timeout_seconds: u64,
}

/// The first problem with a configuration, checked in order: the service URL
/// scheme, the port, the pool sizes, the time to live.
pub open spec fn settings_problem(server: ServerConfig, redis: RedisConfig) -> Option<Seq<char>> {
    if !(has_prefix(redis.url@, "redis://"@) || has_prefix(redis.url@, "rediss://"@)) {
        Some("Redis URL must start with redis:// or rediss://"@)
    } else if server.port == 0 {
        Some("Server port must be greater than 0"@)
    } else if redis.pool.max_size == 0 {
        Some("Redis pool max_size must be greater than 0"@)
    } else if redis.pool.min_idle > redis.pool.max_size {
        Some("Redis pool min_idle cannot be greater than max_size"@)
    } else if redis.ttl_seconds == 0 {
        Some("Redis TTL must be greater than 0"@)
    } else {
        None
    }
}

/// Checks a configuration; the error says what is wrong.
pub fn validate_settings(server: &ServerConfig, redis: &RedisConfig) -> (r: Result<(), String>)
    ensures
        match settings_problem(*server, *redis) {
            None => r is Ok,
            Some(m) => r matches Err(e) && e@ == m,
        },
{
    let url = redis.url.as_str();
    if !(starts_with(url, "redis://") || starts_with(url, "rediss://")) {
        return Err("Redis URL must start with redis:// or rediss://".to_string());
    }
    if server.port == 0 {
        return Err("Server port must be greater than 0".to_string());
    }
    if redis.pool.max_size == 0 {
        return Err("Redis pool max_size must be greater than 0".to_string());
    }
    if redis.pool.min_idle > redis.pool.max_size {
        return Err("Redis pool min_idle cannot be greater than max_size".to_string());
    }
    if redis.ttl_seconds == 0 {
        return Err("Redis TTL must be greater than 0".to_string());
    }
    Ok(())
}

/// `host:port`.
pub open spec fn address_of(server: ServerConfig) -> Seq<char> {
    server.host@ + ":"@ + decimal(server.port as nat)
}

/// The address the server binds: `host:port`.
pub fn server_address(server: &ServerConfig) -> (r: String)
    ensures
        r@ == address_of(*server),
{
    let mut a = server.host.clone();
    a.append(":");
    a.append(decimal_text(server.port as u64).as_str());
    a
}

/// The server's own base URL: `http://host:port`.
pub fn server_base_url(server: &ServerConfig) -> (r: String)
    ensures
        r@ == "http://"@ + address_of(*server),
{
    let mut u = "http://".to_string();
    u.append(server_address(server).as_str());
    u
}

} // verus!
