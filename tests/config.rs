use acs_mock::config::{
    server_address, server_base_url, validate_settings, ConnectionConfig, PoolConfig, RedisConfig,
    ServerConfig,
};

fn server() -> ServerConfig {
    ServerConfig {
        host: "127.0.0.1".to_string(),
        port: 8080,
        log_level: "info".to_string(),
        workers: Some(1),
    }
}

fn redis(url: &str) -> RedisConfig {
    RedisConfig {
        url: url.to_string(),
        ttl_seconds: 1800,
        key_prefix: "test".to_string(),
        connection: ConnectionConfig { timeout_ms: 5000, max_retries: 3, retry_delay_ms: 1000 },
        pool: PoolConfig {
            max_size: 10,
            min_idle: 2,
            connection_timeout_seconds: 10,
            idle_timeout_seconds: 300,
        },
    }
}

#[test]
fn test_settings_validation() {
    assert!(validate_settings(&server(), &redis("redis://127.0.0.1:6379")).is_ok());
}

#[test]
fn test_invalid_redis_url() {
    assert!(validate_settings(&server(), &redis("invalid://url")).is_err());
}

#[test]
fn test_server_address() {
    assert_eq!(server_address(&server()), "127.0.0.1:8080");
}

#[test]
fn settings_problems_in_order() {
    let mut s = server();
    s.port = 0;
    assert_eq!(
        validate_settings(&s, &redis("rediss://h")),
        Err("Server port must be greater than 0".to_string())
    );
    let mut r = redis("redis://h");
    r.pool.min_idle = 11;
    assert_eq!(
        validate_settings(&server(), &r),
        Err("Redis pool min_idle cannot be greater than max_size".to_string())
    );
    r.pool.max_size = 0;
    assert_eq!(
        validate_settings(&server(), &r),
        Err("Redis pool max_size must be greater than 0".to_string())
    );
    let mut r = redis("redis://h");
    r.ttl_seconds = 0;
    assert_eq!(validate_settings(&server(), &r), Err("Redis TTL must be greater than 0".to_string()));
    assert_eq!(server_base_url(&server()), "http://127.0.0.1:8080");
    let mut s = server();
    s.port = 7;
    assert_eq!(server_address(&s), "127.0.0.1:7");
}
