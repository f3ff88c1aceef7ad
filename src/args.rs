use vstd::prelude::*;

verus! {

/// How to reach the relay server.
pub struct Proxy {
    /// Host name or IP literal of the relay server.
    pub proxy_addr: String,
    pub proxy_port: u16,
    /// Use plain `ws://` instead of TLS.
    pub skip_tls: bool,
}

/// A tunnel from standard input and output to one destination.
pub struct Connect {
    pub proxy: Proxy,
    /// The destination, as `host:port`.
    pub addr: String,
}

/// A name to resolve.
pub struct Resolve {
    pub name: String,
}

/// A local SOCKS5 server.
pub struct Tunnel {
    pub proxy: Proxy,
    /// Destinations that go through the tunnel; the rest go directly.
    pub forward: Vec<String>,
    /// Local address to listen on.
    pub bind: String,
}

/// The relay server.
pub struct Backend {
    /// Destinations that clients may ask for.
    pub allowed: Vec<String>,
    /// Seconds between pings that keep connections alive.
    pub ping_interval: Option<u64>,
}

} // verus!
