use vstd::prelude::*;
use crate::config::{setting, setting_or};
use crate::text::{parse_u16, parse_u16_spec};
use crate::types::opt_text_view;

verus! {

/// The address text to bind, `127.0.0.1` by default.
pub open spec fn address_of(addr: Option<Seq<char>>) -> Seq<char> {
    setting_or(addr, "127.0.0.1"@)
}

/// The port to bind, `3030` by default; `None` when the text is not a port.
pub open spec fn port_of(port: Option<Seq<char>>) -> Option<u16> {
    parse_u16_spec(setting_or(port, "3030"@))
}

/// The websocket server's address text and port, from the `WS_ADDR` and
/// `WS_PORT` values. Reading the address as an IP address is left to the
/// caller.
pub fn create(addr: Option<String>, port: Option<String>) -> (server: (String, Option<u16>))
    ensures
        server.0@ == address_of(opt_text_view(addr)),
        server.1 == port_of(opt_text_view(port)),
{
    let addr = setting(addr, "127.0.0.1");
    let port = setting(port, "3030");
    (addr, parse_u16(port.as_str()))
}

/// The server binds to `WS_ADDR` as given, else `127.0.0.1`, and to the port
/// `WS_PORT` reads as, else port 3030.
pub proof fn lemma_server_settings(a: Seq<char>, p: Seq<char>)
    ensures
        address_of(Some(a)) == a,
        address_of(None) == "127.0.0.1"@,
        port_of(Some(p)) == parse_u16_spec(p),
        port_of(None) == Some(3030u16),
{
    reveal_strlit("3030");
    assert(crate::text::nat_decimal(3) =~= seq!['3']);
    assert(crate::text::nat_decimal(30) =~= seq!['3', '0']);
    assert(crate::text::nat_decimal(303) =~= seq!['3', '0', '3']);
    assert(crate::text::nat_decimal(3030) =~= "3030"@);
    crate::text::lemma_parse_reads_back_decimal(3030);
}

} // verus!
