use wsredis::config;
use wsredis::config::{redis_config, server_config};
use wsredis::keys::{session_key, table_key};
use wsredis::text::{i64_to_decimal, parse_u16, u64_to_decimal};
use wsredis::types::ApiResponse;

#[test]
fn table_key_prefixes_name() {
    assert_eq!(table_key("kitchen"), "table:kitchen");
    assert_eq!(table_key(""), "table:");
}

#[test]
fn session_key_prefixes_id() {
    assert_eq!(session_key("abc"), "session:abc");
}

#[test]
fn decimal_of_unsigned() {
    assert_eq!(u64_to_decimal(0), "0");
    assert_eq!(u64_to_decimal(7), "7");
    assert_eq!(u64_to_decimal(1234567), "1234567");
    assert_eq!(u64_to_decimal(u64::MAX), u64::MAX.to_string());
}

#[test]
fn decimal_of_signed_matches_display() {
    for n in [0i64, 1, 9, 10, 42, -1, -45, 1_000_000, i64::MAX, i64::MIN, -9_999] {
        assert_eq!(i64_to_decimal(n), n.to_string());
    }
}

#[test]
fn port_parse_accepts_what_std_accepts() {
    let cases = ["3030", "+80", "65535", "65536", "", "+", "-1", "-0", " 80", "80 ", "08", "0",
        "99999999999999999999", "12a", "+-1", "٣"];
    for c in cases {
        assert_eq!(parse_u16(c), c.parse::<u16>().ok(), "input {:?}", c);
    }
}

#[test]
fn port_parse_values() {
    assert_eq!(parse_u16("3030"), Some(3030));
    assert_eq!(parse_u16("+80"), Some(80));
    assert_eq!(parse_u16("65536"), None);
    assert_eq!(parse_u16("-1"), None);
}

#[test]
fn redis_url_defaults() {
    assert_eq!(redis_config::create(None, None), "redis://127.0.0.1:6379");
}

#[test]
fn redis_url_from_settings() {
    assert_eq!(
        redis_config::create(Some("redis.local".to_string()), Some("7000".to_string())),
        "redis://redis.local:7000"
    );
    assert_eq!(redis_config::create(None, Some("1".to_string())), "redis://127.0.0.1:1");
}

#[test]
fn server_settings_defaults() {
    assert_eq!(server_config::create(None, None), ("127.0.0.1".to_string(), Some(3030)));
}

#[test]
fn server_settings_bad_port() {
    assert_eq!(
        server_config::create(Some("0.0.0.0".to_string()), Some("http".to_string())),
        ("0.0.0.0".to_string(), None)
    );
    assert_eq!(server_config::create(None, Some("8080".to_string())).1, Some(8080));
}

#[test]
fn full_configuration() {
    let (redis, (addr, port)) = config::create(None, Some("6380".to_string()), Some("::1".to_string()), None);
    assert_eq!(redis, "redis://127.0.0.1:6380");
    assert_eq!(addr, "::1");
    assert_eq!(port, Some(3030));
}

#[test]
fn response_constructors() {
    let ok = ApiResponse::success("Authorized", "session:x".to_string());
    assert_eq!(ok.status, "success");
    assert_eq!(ok.message, "Authorized");
    assert_eq!(ok.token, Some("session:x".to_string()));
    let err = ApiResponse::error("Password is not valid");
    assert_eq!(err.status, "error");
    assert_eq!(err.token, None);
}

#[test]
fn session_and_table_keys_never_collide() {
    for id in ["", "table:x", "abc"] {
        for name in ["", "session:abc", "x"] {
            assert_ne!(session_key(id), table_key(name));
        }
    }
}

#[test]
fn different_names_give_different_table_keys() {
    assert_ne!(table_key("a"), table_key("b"));
    assert_ne!(table_key("ab"), table_key("a"));
}
