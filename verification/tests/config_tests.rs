use actix_jwt_api::config::{
    database_url, max_requests_tries_allowed, parse_u32_or, parse_u64_or, parse_unsigned_decimal,
    redis_url, time_block_ip, AUTH_TIME_BLOCK_IP_SECONDS, DEFAULT_MAX_REQUESTS_TRIES_ALLOWED,
    DEFAULT_TIME_BLOCK_IP_SECONDS,
};

#[test]
fn parses_plain_and_signed_numbers() {
    assert_eq!(parse_u64_or("360", 1), 360);
    assert_eq!(parse_u64_or("+42", 1), 42);
    assert_eq!(parse_u64_or("007", 1), 7);
    assert_eq!(parse_u64_or("18446744073709551615", 1), u64::MAX);
}

#[test]
fn falls_back_on_malformed_numbers() {
    assert_eq!(parse_u64_or("", 9), 9);
    assert_eq!(parse_u64_or("+", 9), 9);
    assert_eq!(parse_u64_or("-1", 9), 9);
    assert_eq!(parse_u64_or("12a", 9), 9);
    assert_eq!(parse_u64_or(" 1", 9), 9);
    assert_eq!(parse_u64_or("18446744073709551616", 9), 9);
    assert_eq!(parse_u32_or("4294967296", 7), 7);
    assert_eq!(parse_u32_or("4294967295", 7), u32::MAX);
}

#[test]
fn parsed_bound_is_respected() {
    assert_eq!(parse_unsigned_decimal("100", 99), None);
    assert_eq!(parse_unsigned_decimal("99", 99), Some(99));
}

#[test]
fn block_settings_use_their_defaults() {
    assert_eq!(time_block_ip("", DEFAULT_TIME_BLOCK_IP_SECONDS), 360);
    assert_eq!(time_block_ip("five hours", AUTH_TIME_BLOCK_IP_SECONDS), 18000);
    assert_eq!(time_block_ip("60", AUTH_TIME_BLOCK_IP_SECONDS), 60);
    assert_eq!(max_requests_tries_allowed("abc"), DEFAULT_MAX_REQUESTS_TRIES_ALLOWED);
    assert_eq!(max_requests_tries_allowed("abc"), 15);
    assert_eq!(max_requests_tries_allowed("3"), 3);
}

#[test]
fn builds_the_cache_url() {
    assert_eq!(redis_url("pw", "cache:6379"), "redis://:pw@cache:6379");
    assert_eq!(redis_url("", ""), "redis://:@");
}

#[test]
fn picks_the_test_database_on_the_marker_argument() {
    let with_marker = vec!["api".to_string(), "_".to_string(), "test_env".to_string()];
    let without = vec!["api".to_string(), "test_env_x".to_string()];
    assert_eq!(database_url(&with_marker, "postgres://main", "postgres://test"), "postgres://test");
    assert_eq!(database_url(&without, "postgres://main", "postgres://test"), "postgres://main");
    assert_eq!(database_url(&Vec::new(), "postgres://main", "postgres://test"), "postgres://main");
}
