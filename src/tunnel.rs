use vstd::prelude::*;
use crate::rules::{admits, rule_views};
use crate::socks5::{host_text, sock_addr_text, Request, Socks5Error};

verus! {

/// How the local proxy serves one request.
pub enum Route {
    /// Through the tunnel, asking the relay server for this `host:port`.
    Forward(String),
    /// Directly, to this host and port.
    Direct(String, u16),
}

/// Routes a request: through the tunnel when the forward rules admit its
/// rendered destination, directly otherwise. An invalid destination cannot be
/// routed.
pub fn route(req: &Request, forward: &[String]) -> (r: Result<Route, Socks5Error>)
    ensures
        match sock_addr_text(req.addr.model(), req.port) {
            None => r == Err::<Route, Socks5Error>(Socks5Error::ProtocolError),
            Some(t) => if admits(t, rule_views(forward)) {
                r matches Ok(Route::Forward(s)) && s@ == t
            } else {
                r matches Ok(Route::Direct(h, p)) && h@ == host_text(req.addr.model())->0
                    && p == req.port
            },
        },
{
    let addr = match req.to_sock_addr() {
        Ok(a) => a,
        Err(e) => { return Err(e); },
    };
    if crate::rules::matches(addr.as_str(), forward) {
        Ok(Route::Forward(addr))
    } else {
        match req.to_host_addr() {
            Ok(h) => Ok(Route::Direct(h, req.port)),
            Err(e) => Err(e),
        }
    }
}

} // verus!
