//! Server settings, computed from the values of the environment variables
//! `REDIS_ADDR`, `REDIS_PORT`, `WS_ADDR` and `WS_PORT` (`None` when unset).
use vstd::prelude::*;
use crate::types::opt_text_view;

pub mod redis_config;
pub mod server_config;

verus! {

/// The Redis connection URL.
pub type RedisConfig = String;

/// A setting's value, or its default when the variable is unset.
pub open spec fn setting_or(value: Option<Seq<char>>, default: Seq<char>) -> Seq<char> {
    match value {
        Some(v) => v,
        None => default,
    }
}

/// Returns the value of a setting, or its default when unset.
pub fn setting(value: Option<String>, default: &str) -> (chosen: String)
    ensures
        chosen@ == setting_or(opt_text_view(value), default@),
{
    match value {
        Some(v) => v,
        None => String::from_str(default),
    }
}

/// Both configurations: the Redis URL, and the websocket server's address
/// text and port (`None` when the port text is not a valid port number).
pub fn create(
    redis_addr: Option<String>,
    redis_port: Option<String>,
    ws_addr: Option<String>,
    ws_port: Option<String>,
) -> (config: (RedisConfig, (String, Option<u16>)))
    ensures
        config.0@ == redis_config::redis_url_of(opt_text_view(redis_addr), opt_text_view(redis_port)),
        config.1.0@ == server_config::address_of(opt_text_view(ws_addr)),
        config.1.1 == server_config::port_of(opt_text_view(ws_port)),
{
    let redis = redis_config::create(redis_addr, redis_port);
    let server = server_config::create(ws_addr, ws_port);
    (redis, server)
}

} // verus!
