use vstd::prelude::*;
use crate::config::{setting, setting_or, RedisConfig};
use crate::types::opt_text_view;

verus! {

/// `redis://<addr>:<port>`, with `127.0.0.1` and `6379` as defaults.
pub open spec fn redis_url_of(addr: Option<Seq<char>>, port: Option<Seq<char>>) -> Seq<char> {
    "redis://"@ + setting_or(addr, "127.0.0.1"@) + ":"@ + setting_or(port, "6379"@)
}

/// Builds the Redis URL from the `REDIS_ADDR` and `REDIS_PORT` values.
pub fn create(addr: Option<String>, port: Option<String>) -> (url: RedisConfig)
    ensures
        url@ == redis_url_of(opt_text_view(addr), opt_text_view(port)),
{
    let addr = setting(addr, "127.0.0.1");
    let port = setting(port, "6379");
    String::from_str("redis://").concat(addr.as_str()).concat(":").concat(port.as_str())
}

/// Each part of the Redis URL comes from its own variable: the address from
/// `REDIS_ADDR` (else `127.0.0.1`) and the port from `REDIS_PORT` (else
/// `6379`), whichever of the two is set.
pub proof fn lemma_redis_url_parts(a: Seq<char>, p: Seq<char>)
    ensures
        redis_url_of(Some(a), Some(p)) == "redis://"@ + a + ":"@ + p,
        redis_url_of(Some(a), None) == "redis://"@ + a + ":"@ + "6379"@,
        redis_url_of(None, Some(p)) == "redis://"@ + "127.0.0.1"@ + ":"@ + p,
        redis_url_of(None, None) == "redis://"@ + "127.0.0.1"@ + ":"@ + "6379"@,
{
}

} // verus!
